//! The pinned upstream revision of the example fixtures, the errors of
//! fetching it, the check of a resolved commit id, and whether a cache holds
//! the pinned commit.

use vstd::prelude::*;
use crate::carried::io_error_text;
use crate::text::{replace_first, replace_first_text, contains_text, owned, concat2, concat3, concat4, concat6, string_of, i64_decimal, int_decimal, trim, trim_text, str_debug, str_debug_text};

verus! {

/// A pinned fragment of an upstream repository: the repository, the commit
/// and the path below it.
#[derive(Debug, Clone, Copy)]
pub struct Pin {
    pub repo: &'static str,
    pub sha: &'static str,
    pub subpath: &'static str,
}

/// The upstream repository of the fixtures.
pub open spec fn pinned_repo() -> Seq<char> {
    "https://github.com/modelcontextprotocol/modelcontextprotocol.git"@
}

/// The pinned commit.
pub open spec fn pinned_sha() -> Seq<char> {
    "271ecc9accafdd9b83a3c869fa67c22953b2af80"@
}

/// The pinned example directory below the repository root.
pub open spec fn pinned_subpath() -> Seq<char> {
    "schema/2026-07-28/examples"@
}

/// The pinned upstream tree: the one source of which examples compliance
/// is asserted against.
pub fn pin() -> (r: Pin)
    ensures
        r.repo@ == pinned_repo(),
        r.sha@ == pinned_sha(),
        r.subpath@ == pinned_subpath(),
{
    Pin {
        repo: "https://github.com/modelcontextprotocol/modelcontextprotocol.git",
        sha: "271ecc9accafdd9b83a3c869fa67c22953b2af80",
        subpath: "schema/2026-07-28/examples",
    }
}

/// What `format!("{:?}", std::path::Path::new(p))` gives for the path `p`:
/// its `Debug` form.
pub uninterp spec fn path_debug_text(p: Seq<char>) -> Seq<char>;

/// The `Debug` text of the path `p`. Calls `Path`'s `Debug`; claims only
/// that the text is the named function of the path.
#[verifier::external_body]
fn path_debug(p: &str) -> (r: String)
    ensures
        r@ == path_debug_text(p@),
{
    format!("{:?}", std::path::Path::new(p))
}

/// Why fetching the fixtures failed.
#[derive(Debug)]
pub enum FetchError {
    /// `git` could not be started.
    GitNotFound(std::io::Error),
    /// A `git` command exited unsuccessfully.
    GitFailed { status: i32, stderr: String },
    /// A file-system operation on `path` failed.
    Io { path: String, source: std::io::Error },
    /// The cache lacks the path it should hold.
    CachePoisoned(String),
}

impl FetchError {
    /// Whether `t` is the display text of `self` (for the I/O errors: the
    /// error's own text after a fixed lead-in).
    pub open spec fn displays_as(&self, t: Seq<char>) -> bool {
        match *self {
            FetchError::GitNotFound(_) => t.len() >= 27 && t.subrange(0, 27) == "git not available on PATH: "@,
            FetchError::GitFailed { status, stderr } => t == "git command failed (status="@ + int_decimal(
                status as int,
            ) + "): "@ + stderr@,
            FetchError::Io { path, .. } => t.len() >= 12 + path@.len() + 2 && t.subrange(
                0,
                12 + path@.len() + 2 as int,
            ) == "io error at "@ + path@ + ": "@,
            FetchError::CachePoisoned(p) => t == "cache appears poisoned (missing "@ + path_debug_text(p@)
                + "); delete and retry"@,
        }
    }

    /// The human-readable text of the error (its `Display` form).
    pub fn display_text(&self) -> (r: String)
        ensures
            self.displays_as(r@),
    {
        match self {
            FetchError::GitNotFound(e) => {
                let t = io_error_text(e);
                let m = concat2("git not available on PATH: ", t.as_str());
                proof {
                    reveal_strlit("git not available on PATH: ");
                    assert(m@.subrange(0, 27) =~= "git not available on PATH: "@);
                }
                m
            },
            FetchError::GitFailed { status, stderr } => {
                let digits = string_of(&i64_decimal(*status as i64));
                concat4("git command failed (status=", digits.as_str(), "): ", stderr.as_str())
            },
            FetchError::Io { path, source } => {
                let t = io_error_text(source);
                let m = concat4("io error at ", path.as_str(), ": ", t.as_str());
                proof {
                    reveal_strlit("io error at ");
                    reveal_strlit(": ");
                    assert(m@.subrange(0, 12 + path@.len() + 2 as int) =~= "io error at "@ + path@ + ": "@);
                }
                m
            },
            FetchError::CachePoisoned(p) => {
                let d = path_debug(p.as_str());
                concat3("cache appears poisoned (missing ", d.as_str(), "); delete and retry")
            },
        }
    }
}

/// Whether `c` is an ASCII hexadecimal digit.
pub open spec fn is_ascii_hex(c: char) -> bool {
    ('0' <= c && c <= '9') || ('a' <= c && c <= 'f') || ('A' <= c && c <= 'F')
}

/// Whether `s` has the shape of a full commit id: forty hexadecimal digits.
pub open spec fn is_commit_sha_text(s: Seq<char>) -> bool {
    s.len() == 40 && forall|i: int| 0 <= i < s.len() ==> is_ascii_hex(#[trigger] s[i])
}

/// Whether `s` has the shape of a full commit id.
pub fn is_commit_sha(s: &str) -> (r: bool)
    ensures
        r == is_commit_sha_text(s@),
{
    let v = crate::text::chars_of(s);
    if v.len() != 40 {
        return false;
    }
    let mut i: usize = 0;
    while i < v.len()
        invariant
            v@ == s@,
            v@.len() == 40,
            i <= v@.len(),
            forall|j: int| 0 <= j < i ==> is_ascii_hex(#[trigger] v@[j]),
        decreases v.len() - i,
    {
        let c = v[i];
        if !(('0' <= c && c <= '9') || ('a' <= c && c <= 'f') || ('A' <= c && c <= 'F')) {
            return false;
        }
        i = i + 1;
    }
    true
}

/// The commit that `git log -1 --format=%H` printed (`output`) for the last
/// change of `subpath` on `branch`: the trimmed output where it has the
/// shape of a full commit id, otherwise a failure that names the subpath,
/// the branch and what was printed.
pub fn resolve_subpath_head_output(output: &str, subpath: &str, branch: &str) -> (r: Result<String, FetchError>)
    ensures
        is_commit_sha_text(trim_text(output@)) ==> (r matches Ok(s) && s@ == trim_text(output@)),
        !is_commit_sha_text(trim_text(output@)) ==> (r matches Err(FetchError::GitFailed { status, stderr })
            && status == 0 && stderr@ == "no commit found touching "@ + subpath@ + " on "@ + branch@
            + " (got "@ + str_debug_text(trim_text(output@)) + ")"@),
{
    let sha = trim(output);
    if is_commit_sha(sha.as_str()) {
        Ok(sha)
    } else {
        let d = str_debug(sha.as_str());
        Err(
            FetchError::GitFailed {
                status: 0,
                stderr: concat6(
                    "no commit found touching ",
                    subpath,
                    " on ",
                    branch,
                    " (got ",
                    concat2(d.as_str(), ")").as_str(),
                ),
            },
        )
    }
}

/// The line of the fetch source that pins `sha`.
pub open spec fn pin_line(sha: Seq<char>) -> Seq<char> {
    "sha: \""@ + sha + "\""@
}

/// Rewrites the pin in the fetch module's source `src`: the first
/// `sha: "{old_sha}"` becomes `sha: "{new_sha}"`. Refuses, with a message
/// that names the line looked for, where `src` does not hold it.
pub fn replace_pin_in_fetch(src: &str, old_sha: &str, new_sha: &str) -> (r: Result<String, String>)
    ensures
        contains_text(src@, pin_line(old_sha@)) ==> (r matches Ok(t) && t@ == replace_first_text(
            src@,
            pin_line(old_sha@),
            pin_line(new_sha@),
        )),
        !contains_text(src@, pin_line(old_sha@)) ==> (r matches Err(m) && m@ == "could not find `"@
            + pin_line(old_sha@) + "` in fetch.rs \u{2014} refusing to write blindly"@),
{
    let needle = concat3("sha: \"", old_sha, "\"");
    let replacement = concat3("sha: \"", new_sha, "\"");
    match replace_first(src, needle.as_str(), replacement.as_str()) {
        Some(t) => Ok(t),
        None => Err(concat3("could not find `", needle.as_str(), "` in fetch.rs \u{2014} refusing to write blindly")),
    }
}

/// Rewrites the pin in the pin document `src`: the first occurrence of
/// `old_sha` becomes `new_sha`. Refuses where `src` does not hold `old_sha`.
pub fn replace_pin_in_md(src: &str, old_sha: &str, new_sha: &str) -> (r: Result<String, String>)
    ensures
        contains_text(src@, old_sha@) ==> (r matches Ok(t) && t@ == replace_first_text(src@, old_sha@, new_sha@)),
        !contains_text(src@, old_sha@) ==> (r matches Err(m) && m@ == "could not find `"@ + old_sha@
            + "` in EXAMPLES_PIN.md \u{2014} refusing to write blindly"@),
{
    match replace_first(src, old_sha, new_sha) {
        Some(t) => Ok(t),
        None => Err(concat3("could not find `", old_sha, "` in EXAMPLES_PIN.md \u{2014} refusing to write blindly")),
    }
}

/// Whether the commit recorded in a fixture cache's marker is `sha`: the
/// marker's text, without surrounding white space, is exactly `sha` (the
/// cache is then reused, and otherwise fetched anew).
pub fn recorded_pin_matches(recorded: &str, sha: &str) -> (r: bool)
    ensures
        r == (trim_text(recorded@) == sha@),
{
    let t = trim(recorded);
    t == owned(sha)
}

} // verus!
