//! The report of a compliance run, and the check that the coverage table
//! matches the upstream directory listing.

use vstd::prelude::*;
use crate::text::{owned, concat4, concat5, string_of, u64_decimal, nat_decimal, sort_distinct, sorted_distinct, string_views, lemma_sorted_distinct};
use crate::v2026_07_28::{strings_debug, strings_debug_text};
use crate::v2026_07_28::compliance::coverage::Kind;

verus! {

/// How one fixture fared.
#[derive(Debug)]
pub enum Outcome {
    /// The round trip matched.
    Pass,
    /// The re-serialized form differs; the first difference is described.
    Diff(String),
    /// Reading or parsing failed.
    ParseError(String),
    /// Re-serializing failed.
    SerializeError(String),
}

/// One fixture that did not pass: its directory, its file and its outcome.
#[derive(Debug)]
pub struct FixtureResult {
    pub dir: String,
    pub file: String,
    pub outcome: Outcome,
}

/// The tally of one run.
#[derive(Debug, Default)]
pub struct Report {
    pub modeled: usize,
    pub not_modeled: usize,
    pub passed: usize,
    pub failed: Vec<FixtureResult>,
    pub total_files: usize,
}

impl Report {
    /// Every fixture noted is either counted as passed or kept as failed.
    pub open spec fn is_balanced(&self) -> bool {
        self.passed + self.failed@.len() == self.total_files
    }

    /// An empty tally.
    pub fn new() -> (r: Self)
        ensures
            r.is_balanced(),
            r.modeled == 0,
            r.not_modeled == 0,
            r.passed == 0,
            r.failed@.len() == 0,
            r.total_files == 0,
    {
        Report { modeled: 0, not_modeled: 0, passed: 0, failed: Vec::new(), total_files: 0 }
    }

    /// Whether no fixture failed.
    pub fn is_clean(&self) -> (r: bool)
        ensures
            r == (self.failed@.len() == 0),
    {
        self.failed.len() == 0
    }

    /// Counts a case of the table, by whether it is modeled; returns
    /// whether its fixtures are to be checked.
    pub fn note_case(&mut self, kind: Kind) -> (checked: bool)
        requires
            old(self).modeled < usize::MAX,
            old(self).not_modeled < usize::MAX,
        ensures
            checked == (kind != Kind::NotModeled),
            checked ==> final(self).modeled == old(self).modeled + 1 && final(self).not_modeled
                == old(self).not_modeled,
            !checked ==> final(self).not_modeled == old(self).not_modeled + 1 && final(self).modeled
                == old(self).modeled,
            final(self).passed == old(self).passed,
            final(self).failed == old(self).failed,
            final(self).total_files == old(self).total_files,
            old(self).is_balanced() ==> final(self).is_balanced(),
    {
        match kind {
            Kind::NotModeled => {
                self.not_modeled = self.not_modeled + 1;
                false
            },
            _ => {
                self.modeled = self.modeled + 1;
                true
            },
        }
    }

    /// Records the outcome of one fixture file: a pass is counted, any
    /// other outcome is kept with its directory and file.
    pub fn note_fixture(&mut self, dir: &str, file: &str, outcome: Outcome)
        requires
            old(self).total_files < usize::MAX,
            old(self).passed < usize::MAX,
        ensures
            old(self).is_balanced() ==> final(self).is_balanced(),
            final(self).total_files == old(self).total_files + 1,
            final(self).modeled == old(self).modeled,
            final(self).not_modeled == old(self).not_modeled,
            outcome is Pass ==> final(self).passed == old(self).passed + 1 && final(self).failed
                == old(self).failed,
            !(outcome is Pass) ==> {
                &&& final(self).passed == old(self).passed
                &&& final(self).failed@.len() == old(self).failed@.len() + 1
                &&& final(self).failed@.drop_last() == old(self).failed@
                &&& final(self).failed@.last().dir@ == dir@
                &&& final(self).failed@.last().file@ == file@
                &&& final(self).failed@.last().outcome == outcome
            },
    {
        self.total_files = self.total_files + 1;
        match outcome {
            Outcome::Pass => {
                self.passed = self.passed + 1;
            },
            other => {
                self.failed.push(FixtureResult { dir: owned(dir), file: owned(file), outcome: other });
                assert(self.failed@.drop_last() =~= old(self).failed@);
            },
        }
    }
}

/// Every fixture noted is either counted as passed or kept as failed.
pub proof fn lemma_report_tally(before: Report, after: Report, outcome: Outcome)
    requires
        before.passed + before.failed@.len() == before.total_files,
        after.total_files == before.total_files + 1,
        outcome is Pass ==> after.passed == before.passed + 1 && after.failed == before.failed,
        !(outcome is Pass) ==> after.passed == before.passed && after.failed@.len()
            == before.failed@.len() + 1,
    ensures
        after.passed + after.failed@.len() == after.total_files,
{
}

/// Whether `s` is one of `v`.
pub open spec fn listed(v: Seq<String>, s: Seq<char>) -> bool {
    exists|i: int| 0 <= i < v.len() && v[i]@ == s
}

/// The members of `a` (in order) that `b` does not list.
pub open spec fn unlisted(a: Seq<String>, b: Seq<String>) -> Seq<String>
    decreases a.len(),
{
    if a.len() == 0 {
        seq![]
    } else {
        let rest = unlisted(a.drop_last(), b);
        if listed(b, a.last()@) {
            rest
        } else {
            rest.push(a.last())
        }
    }
}


/// The number of entries the table must have.
pub const EXPECTED_CASES: usize = 86;

/// What the check of the table against the upstream listing reports: out
/// of sync where either names a directory the other does not (each name
/// listed once, in sorted order), else a wrong size.
pub open spec fn table_check(upstream: Seq<String>, table: Seq<String>) -> Result<(), Seq<char>> {
    let missing = sorted_distinct(string_views(unlisted(upstream, table)));
    let extra = sorted_distinct(string_views(unlisted(table, upstream)));
    if missing.len() > 0 || extra.len() > 0 {
        Err(
            "coverage table out of sync with upstream tree: missing="@ + strings_debug_text(missing)
                + " extra="@ + strings_debug_text(extra),
        )
    } else if table.len() != 86 {
        Err(
            "coverage table size "@ + nat_decimal(table.len()) + " != expected 86 (upstream has "@
                + nat_decimal(upstream.len()) + ")"@,
        )
    } else {
        Ok(())
    }
}

fn is_listed(v: &Vec<String>, s: &String) -> (r: bool)
    ensures
        r == listed(v@, s@),
{
    let mut i: usize = 0;
    while i < v.len()
        invariant
            i <= v@.len(),
            forall|j: int| 0 <= j < i ==> v@[j]@ != s@,
        decreases v.len() - i,
    {
        if v[i] == *s {
            return true;
        }
        i = i + 1;
    }
    false
}

pub(crate) fn unlisted_in(a: &Vec<String>, b: &Vec<String>) -> (r: Vec<String>)
    ensures
        r@ == unlisted(a@, b@),
{
    let mut out: Vec<String> = Vec::new();
    let mut i: usize = 0;
    while i < a.len()
        invariant
            i <= a@.len(),
            out@ == unlisted(a@.take(i as int), b@),
        decreases a.len() - i,
    {
        assert(a@.take(i + 1).drop_last() =~= a@.take(i as int));
        if !is_listed(b, &a[i]) {
            out.push(a[i].clone());
        }
        i = i + 1;
    }
    assert(a@.take(a@.len() as int) =~= a@);
    out
}

/// Checks the coverage table (`table`, its directory names) against the
/// upstream directory listing (`upstream`): every directory on one side
/// must be named on the other, and the table must have its expected size.
pub fn table_matches_upstream(upstream: &Vec<String>, table: &Vec<String>) -> (r: Result<(), String>)
    ensures
        match (r, table_check(upstream@, table@)) {
            (Ok(()), Ok(())) => true,
            (Err(m), Err(t)) => m@ == t,
            _ => false,
        },
{
    let missing = sort_distinct(&unlisted_in(upstream, table));
    let extra = sort_distinct(&unlisted_in(table, upstream));
    proof {
        lemma_sorted_distinct(string_views(unlisted(upstream@, table@)));
        lemma_sorted_distinct(string_views(unlisted(table@, upstream@)));
        assert(missing@.len() == string_views(missing@).len());
        assert(extra@.len() == string_views(extra@).len());
    }
    if missing.len() > 0 || extra.len() > 0 {
        let dm = strings_debug(&missing);
        let de = strings_debug(&extra);
        return Err(
            concat4(
                "coverage table out of sync with upstream tree: missing=",
                dm.as_str(),
                " extra=",
                de.as_str(),
            ),
        );
    }
    if table.len() != EXPECTED_CASES {
        let tn = string_of(&u64_decimal(table.len() as u64));
        let un = string_of(&u64_decimal(upstream.len() as u64));
        return Err(
            concat5(
                "coverage table size ",
                tn.as_str(),
                " != expected 86 (upstream has ",
                un.as_str(),
                ")",
            ),
        );
    }
    Ok(())
}

} // verus!
