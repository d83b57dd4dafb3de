//! Streamable HTTP header names, `x-mcp-header` parameter bindings and the
//! `Mcp-Param-*` value encoding.

use vstd::prelude::*;
use vstd::utf8::{valid_utf8, decode_utf8, encode_utf8};
use vstd::string::StringSliceAdditionalSpecFns;
use base64::Engine as _;
use crate::json::{Json, JsonNumber, member, lookup, key_index, lemma_key_index_range, lemma_key_index_first, find_key, get_member};
use crate::text::{is_unicode_whitespace, char_is_whitespace, chars_of, string_of, owned, concat2, concat3, concat5, concat7, starts_with, ends_with, has_prefix, has_suffix, int_decimal, nat_decimal, i64_decimal, lemma_utf8_len_bound};

verus! {

/// `MCP-Protocol-Version`: required on every Streamable HTTP POST; must match
/// the request's `_meta` protocol version.
pub const HTTP_HEADER_PROTOCOL_VERSION: &'static str = "MCP-Protocol-Version";

/// `Mcp-Method`: carries the JSON-RPC `method` at the HTTP layer.
pub const HTTP_HEADER_METHOD: &'static str = "Mcp-Method";

/// `Mcp-Name`: carries `params.name` (or `params.uri`) at the HTTP layer.
pub const HTTP_HEADER_NAME: &'static str = "Mcp-Name";

/// Prefix of the header names mirrored from tool parameters: `Mcp-Param-{name}`.
pub const HTTP_HEADER_PARAM_PREFIX: &'static str = "Mcp-Param-";

/// The JSON Schema extension property that designates a parameter for header mirroring.
pub const X_MCP_HEADER_SCHEMA_KEY: &'static str = "x-mcp-header";

/// Opening sentinel of a Base64-encoded `Mcp-Param-*` value.
pub const MCP_PARAM_BASE64_PREFIX: &'static str = "=?base64?";

/// Closing sentinel of a Base64-encoded `Mcp-Param-*` value.
pub const MCP_PARAM_BASE64_SUFFIX: &'static str = "?=";

/// JSON-RPC error code for header-validation failures.
pub const ERROR_CODE_HEADER_MISMATCH: i64 = -32020;

/// The characters of `MCP_PARAM_BASE64_PREFIX`.
pub open spec fn base64_prefix() -> Seq<char> {
    seq!['=', '?', 'b', 'a', 's', 'e', '6', '4', '?']
}

/// The characters of `MCP_PARAM_BASE64_SUFFIX`.
pub open spec fn base64_suffix() -> Seq<char> {
    seq!['?', '=']
}

// ---------------------------------------------------------------------------
// Base64 (standard alphabet, padded), from the `base64` crate.
// ---------------------------------------------------------------------------

/// The sixty-four digits of standard Base64, by value.
pub open spec fn base64_digits() -> Seq<char> {
    seq![
        'A', 'B', 'C', 'D', 'E', 'F', 'G', 'H', 'I', 'J', 'K', 'L', 'M', 'N', 'O', 'P',
        'Q', 'R', 'S', 'T', 'U', 'V', 'W', 'X', 'Y', 'Z', 'a', 'b', 'c', 'd', 'e', 'f',
        'g', 'h', 'i', 'j', 'k', 'l', 'm', 'n', 'o', 'p', 'q', 'r', 's', 't', 'u', 'v',
        'w', 'x', 'y', 'z', '0', '1', '2', '3', '4', '5', '6', '7', '8', '9', '+', '/',
    ]
}

/// Standard padded Base64 of `bytes`: each group of three bytes becomes
/// four digits of six bits each, most significant first; a last group of
/// one or two bytes is filled with zero bits and padded with `=` to four.
pub open spec fn base64_standard_encode(bytes: Seq<u8>) -> Seq<char>
    decreases bytes.len(),
{
    let d = base64_digits();
    if bytes.len() == 0 {
        seq![]
    } else if bytes.len() == 1 {
        let b0 = bytes[0] as int;
        seq![d[b0 / 4], d[(b0 % 4) * 16], '=', '=']
    } else if bytes.len() == 2 {
        let b0 = bytes[0] as int;
        let b1 = bytes[1] as int;
        seq![d[b0 / 4], d[(b0 % 4) * 16 + b1 / 16], d[(b1 % 16) * 4], '=']
    } else {
        let b0 = bytes[0] as int;
        let b1 = bytes[1] as int;
        let b2 = bytes[2] as int;
        seq![d[b0 / 4], d[(b0 % 4) * 16 + b1 / 16], d[(b1 % 16) * 4 + b2 / 64], d[b2 % 64]]
            + base64_standard_encode(bytes.subrange(3, bytes.len() as int))
    }
}

/// What `base64::engine::general_purpose::STANDARD.decode` returns for the
/// text `s`: the bytes, or the text of the decode error.
pub uninterp spec fn base64_standard_decode(s: Seq<char>) -> Result<Seq<u8>, Seq<char>>;

/// Calls `base64::engine::general_purpose::STANDARD.encode` on the UTF-8 bytes
/// of `s`. Claims: the result is the standard padded Base64 of those bytes,
/// and decoding it gives those bytes back (padded standard Base64 is a
/// bijection between byte strings and its canonical texts). The encoder
/// panics only where the encoded length overflows `usize`, which `requires`
/// rules out.
#[verifier::external_body]
fn base64_encode_str(s: &str) -> (r: String)
    requires
        s.spec_bytes().len() <= usize::MAX / 2,
    ensures
        r@ == base64_standard_encode(s.spec_bytes()),
        base64_standard_decode(r@) is Ok && base64_standard_decode(r@)->Ok_0 == s.spec_bytes(),
{
    base64::engine::general_purpose::STANDARD.encode(s.as_bytes())
}

/// Whether `c` belongs to the standard Base64 alphabet or is its padding.
pub open spec fn is_base64_alphabet(c: char) -> bool {
    ('A' <= c && c <= 'Z') || ('a' <= c && c <= 'z') || ('0' <= c && c <= '9') || c == '+' || c
        == '/' || c == '='
}

/// Every digit of standard Base64 belongs to its alphabet.
proof fn lemma_base64_digits()
    ensures
        forall|v: int| 0 <= v < 64 ==> is_base64_alphabet(#[trigger] base64_digits()[v]),
{
    let d = base64_digits();
    assert forall|v: int| 0 <= v < 64 implies is_base64_alphabet(#[trigger] d[v]) by {
        if v < 16 {
        } else if v < 32 {
        } else if v < 48 {
        } else {
        }
    }
}

/// Standard Base64 is written in its alphabet.
pub proof fn lemma_base64_alphabet(bytes: Seq<u8>)
    ensures
        forall|i: int| 0 <= i < base64_standard_encode(bytes).len() ==> is_base64_alphabet(
            #[trigger] base64_standard_encode(bytes)[i],
        ),
    decreases bytes.len(),
{
    lemma_base64_digits();
    let e = base64_standard_encode(bytes);
    if bytes.len() >= 3 {
        let rest = bytes.subrange(3, bytes.len() as int);
        lemma_base64_alphabet(rest);
        assert forall|i: int| 0 <= i < e.len() implies is_base64_alphabet(#[trigger] e[i]) by {
            if i >= 4 {
                assert(e[i] == base64_standard_encode(rest)[i - 4]);
            }
        }
    }
}

/// Whether `t` may stand as a header value: printable ASCII throughout, with
/// no white space at either end.
pub open spec fn is_header_safe(t: Seq<char>) -> bool {
    &&& forall|i: int| 0 <= i < t.len() ==> is_header_printable(#[trigger] t[i])
    &&& !trim_changes(t)
}

/// Calls `base64::engine::general_purpose::STANDARD.decode` on the bytes of
/// `s`; an error is turned into its display text. Claims only that the
/// result is the named decoding of `s`.
#[verifier::external_body]
fn base64_decode_str(s: &str) -> (r: Result<Vec<u8>, String>)
    ensures
        r matches Ok(v) ==> base64_standard_decode(s@) is Ok && base64_standard_decode(s@)->Ok_0 == v@,
        r matches Err(m) ==> base64_standard_decode(s@) is Err && base64_standard_decode(s@)->Err_0 == m@,
{
    match base64::engine::general_purpose::STANDARD.decode(s) {
        Ok(v) => Ok(v),
        Err(e) => Err(format!("{}", e)),
    }
}

/// The display text of the error that `String::from_utf8` reports for `bytes`.
pub uninterp spec fn utf8_error_text(bytes: Seq<u8>) -> Seq<char>;

/// Calls `String::from_utf8`; an error is turned into its display text.
/// Claims what std documents: success exactly on valid UTF-8, with the
/// decoded characters; otherwise the named error text.
#[verifier::external_body]
fn string_from_utf8(bytes: Vec<u8>) -> (r: Result<String, String>)
    ensures
        r matches Ok(s) ==> valid_utf8(bytes@) && s@ == decode_utf8(bytes@),
        r matches Err(m) ==> !valid_utf8(bytes@) && m@ == utf8_error_text(bytes@),
{
    match String::from_utf8(bytes) {
        Ok(s) => Ok(s),
        Err(e) => Err(format!("{}", e)),
    }
}

// ---------------------------------------------------------------------------
// Value encoding.
// ---------------------------------------------------------------------------

/// The largest magnitude of an integer that JavaScript represents exactly.
pub const JS_SAFE_MAX: i64 = 9_007_199_254_740_991;

/// The plain header text of a parameter value, before any Base64 wrapping:
/// a string as it is, a boolean as `true`/`false`, an integer within the
/// JavaScript safe range in decimal; `None` for every other value.
pub open spec fn plain_param_text(v: Json) -> Option<Seq<char>> {
    match v {
        Json::String(s) => Some(s@),
        Json::Bool(b) => Some(if b { seq!['t', 'r', 'u', 'e'] } else { seq!['f', 'a', 'l', 's', 'e'] }),
        Json::Number(n) => match n.as_i64_spec() {
            Some(i) => if -JS_SAFE_MAX <= i <= JS_SAFE_MAX { Some(int_decimal(i as int)) } else { None },
            None => None,
        },
        _ => None,
    }
}

/// Whether `c` may ride in a header as is (printable ASCII, space included).
pub open spec fn is_header_printable(c: char) -> bool {
    0x20 <= (c as u32) <= 0x7e
}

/// Whether `p` differs from `p.trim()`: it begins or ends with white space.
pub open spec fn trim_changes(p: Seq<char>) -> bool {
    p.len() > 0 && (is_unicode_whitespace(p[0]) || is_unicode_whitespace(p[p.len() - 1]))
}

/// Whether the plain text must be Base64-wrapped: it holds a character that
/// is not printable ASCII, has leading or trailing white space, or itself
/// looks like a wrapped value.
pub open spec fn needs_base64(p: Seq<char>) -> bool {
    ||| exists|i: int| 0 <= i < p.len() && !is_header_printable(#[trigger] p[i])
    ||| trim_changes(p)
    ||| (starts_with(p, base64_prefix()) && ends_with(p, base64_suffix()))
}

/// The `Mcp-Param-*` header value of a parameter value.
pub open spec fn encoded_param(v: Json) -> Option<Seq<char>> {
    match plain_param_text(v) {
        None => None,
        Some(p) => if needs_base64(p) {
            Some(base64_prefix() + base64_standard_encode(encode_utf8(p)) + base64_suffix())
        } else {
            Some(p)
        },
    }
}

/// What decoding the header value `raw` gives: the unwrapped text of a
/// sentinel-wrapped value, `raw` itself otherwise, or an error text.
pub open spec fn decoded_param(raw: Seq<char>) -> Result<Seq<char>, Seq<char>> {
    if starts_with(raw, base64_prefix()) && ends_with(raw.skip(9), base64_suffix()) {
        let inner = raw.subrange(9, raw.len() - 2);
        match base64_standard_decode(inner) {
            Err(m) => Err(invalid_base64_prefix_text() + m),
            Ok(bytes) => if valid_utf8(bytes) {
                Ok(decode_utf8(bytes))
            } else {
                Err(not_utf8_prefix_text() + utf8_error_text(bytes))
            },
        }
    } else {
        Ok(raw)
    }
}

/// Leading text of the error for a wrapped value that is not Base64.
pub open spec fn invalid_base64_prefix_text() -> Seq<char> {
    "invalid Base64 in Mcp-Param value: "@
}

/// Leading text of the error for a wrapped value that is not UTF-8.
pub open spec fn not_utf8_prefix_text() -> Seq<char> {
    "Mcp-Param value is not UTF-8: "@
}

fn prefix_chars() -> (r: Vec<char>)
    ensures
        r@ == base64_prefix(),
{
    let mut r: Vec<char> = Vec::new();
    r.push('=');
    r.push('?');
    r.push('b');
    r.push('a');
    r.push('s');
    r.push('e');
    r.push('6');
    r.push('4');
    r.push('?');
    r
}

fn suffix_chars() -> (r: Vec<char>)
    ensures
        r@ == base64_suffix(),
{
    let mut r: Vec<char> = Vec::new();
    r.push('?');
    r.push('=');
    r
}

fn all_header_printable(p: &Vec<char>) -> (r: bool)
    ensures
        r == forall|i: int| 0 <= i < p@.len() ==> is_header_printable(#[trigger] p@[i]),
{
    let mut i: usize = 0;
    while i < p.len()
        invariant
            i <= p.len(),
            forall|j: int| 0 <= j < i ==> is_header_printable(#[trigger] p@[j]),
        decreases p.len() - i,
    {
        let u = p[i] as u32;
        if u < 0x20 || u > 0x7e {
            return false;
        }
        i = i + 1;
    }
    true
}

fn plain_text_of(value: &Json) -> (r: Option<Vec<char>>)
    ensures
        match r {
            Some(v) => plain_param_text(*value) == Some(v@),
            None => plain_param_text(*value) is None,
        },
{
    match value {
        Json::String(s) => Some(chars_of(s.as_str())),
        Json::Bool(b) => {
            let mut v: Vec<char> = Vec::new();
            if *b {
                v.push('t');
                v.push('r');
                v.push('u');
                v.push('e');
            } else {
                v.push('f');
                v.push('a');
                v.push('l');
                v.push('s');
                v.push('e');
            }
            assert(v@ == plain_param_text(*value)->0);
            Some(v)
        },
        Json::Number(n) => match n.as_i64() {
            Some(i) => if -JS_SAFE_MAX <= i && i <= JS_SAFE_MAX {
                Some(i64_decimal(i))
            } else {
                None
            },
            None => None,
        },
        _ => None,
    }
}

/// Encodes a parameter value for an `Mcp-Param-*` header: a string as is, an
/// integer (within the JavaScript safe range) in decimal, a boolean in lower
/// case; Base64-wrapped as `=?base64?{value}?=` when the text is not plain
/// printable ASCII, has leading or trailing white space, or looks wrapped.
/// `None` for objects, arrays, floats and out-of-range integers.
pub fn encode_param_value(value: &Json) -> (r: Option<String>)
    requires
        plain_param_text(*value) matches Some(p) ==> p.len() <= usize::MAX / 8,
    ensures
        match r {
            Some(s) => encoded_param(*value) == Some(s@),
            None => encoded_param(*value) is None,
        },
        r matches Some(s) ==> decoded_param(s@) is Ok && decoded_param(s@)->Ok_0
            == plain_param_text(*value)->0,
        r matches Some(s) ==> is_header_safe(s@),
{
    let plain = match plain_text_of(value) {
        Some(p) => p,
        None => return None,
    };
    let printable = all_header_printable(&plain);
    let mut needs = !printable;
    if !needs && plain.len() > 0 {
        let first = char_is_whitespace(plain[0]);
        let last = char_is_whitespace(plain[plain.len() - 1]);
        needs = first || last;
    }
    if !needs {
        let pre = prefix_chars();
        let suf = suffix_chars();
        needs = has_prefix(&plain, &pre) && has_suffix(&plain, &suf);
    }
    proof {
        if !printable {
            let i = choose|i: int| 0 <= i < plain@.len() && !is_header_printable(#[trigger] plain@[i]);
            assert(!is_header_printable(plain@[i]));
        }
    }
    assert(needs == needs_base64(plain@));
    let text = string_of(&plain);
    if needs {
        proof {
            lemma_utf8_len_bound(plain@);
        }
        let enc = base64_encode_str(text.as_str());
        proof {
            reveal_strlit("=?base64?");
            reveal_strlit("?=");
            assert(MCP_PARAM_BASE64_PREFIX@ == base64_prefix());
            assert(MCP_PARAM_BASE64_SUFFIX@ == base64_suffix());
        }
        let out = concat3(MCP_PARAM_BASE64_PREFIX, enc.as_str(), MCP_PARAM_BASE64_SUFFIX);
        proof {
            let e = out@;
            assert(e.subrange(0, 9) =~= base64_prefix());
            assert(e.skip(9).subrange(e.skip(9).len() - 2, e.skip(9).len() as int) =~= base64_suffix());
            assert(e.subrange(9, e.len() - 2) =~= enc@);
            vstd::utf8::encode_utf8_valid_utf8(plain@);
            vstd::utf8::encode_utf8_decode_utf8(plain@);
            lemma_base64_alphabet(encode_utf8(plain@));
            assert forall|i: int| 0 <= i < e.len() implies is_header_printable(#[trigger] e[i]) by {
                if 9 <= i < e.len() - 2 {
                    assert(e[i] == enc@[i - 9]);
                    assert(is_base64_alphabet(enc@[i - 9]));
                } else if i < 9 {
                    assert(e[i] == base64_prefix()[i]);
                } else {
                    assert(e[i] == base64_suffix()[i - (e.len() - 2)]);
                }
            }
            assert(e[0] == '=');
            assert(e[e.len() - 1] == '=');
        }
        Some(out)
    } else {
        proof {
            let p = plain@;
            if starts_with(p, base64_prefix()) && ends_with(p.skip(9), base64_suffix()) {
                assert(p.subrange(p.len() - 2, p.len() as int) =~= p.skip(9).subrange(
                    p.skip(9).len() - 2,
                    p.skip(9).len() as int,
                ));
                assert(false);
            }
            assert(text@ == p);
        }
        Some(text)
    }
}

fn sub_chars(v: &Vec<char>, lo: usize, hi: usize) -> (r: Vec<char>)
    requires
        lo <= hi <= v@.len(),
    ensures
        r@ == v@.subrange(lo as int, hi as int),
{
    let mut r: Vec<char> = Vec::new();
    let mut i = lo;
    while i < hi
        invariant
            lo <= i <= hi <= v@.len(),
            r@ == v@.subrange(lo as int, i as int),
        decreases hi - i,
    {
        r.push(v[i]);
        i = i + 1;
        assert(r@ =~= v@.subrange(lo as int, i as int));
    }
    r
}

/// Decodes an `Mcp-Param-*` header value: unwraps the `=?base64?...?=`
/// sentinel when present (Base64, then UTF-8), otherwise returns the value
/// verbatim.
pub fn decode_param_value(raw: &str) -> (r: Result<String, String>)
    ensures
        r matches Ok(s) ==> decoded_param(raw@) is Ok && decoded_param(raw@)->Ok_0 == s@,
        r matches Err(m) ==> decoded_param(raw@) is Err && decoded_param(raw@)->Err_0 == m@,
{
    let v = chars_of(raw);
    let pre = prefix_chars();
    let suf = suffix_chars();
    let wrapped = has_prefix(&v, &pre) && v.len() >= 11 && has_suffix(&v, &suf);
    proof {
        let p = raw@;
        if starts_with(p, base64_prefix()) && p.len() >= 11 {
            assert(p.subrange(p.len() - 2, p.len() as int) =~= p.skip(9).subrange(
                p.skip(9).len() - 2,
                p.skip(9).len() as int,
            ));
        }
    }
    assert(wrapped == (starts_with(raw@, base64_prefix()) && ends_with(raw@.skip(9), base64_suffix())));
    if wrapped {
        let inner_chars = sub_chars(&v, 9, v.len() - 2);
        let inner = string_of(&inner_chars);
        match base64_decode_str(inner.as_str()) {
            Err(m) => {
                let msg = concat2("invalid Base64 in Mcp-Param value: ", m.as_str());
                Err(msg)
            },
            Ok(bytes) => match string_from_utf8(bytes) {
                Ok(s) => Ok(s),
                Err(m) => {
                    let msg = concat2("Mcp-Param value is not UTF-8: ", m.as_str());
                    Err(msg)
                },
            },
        }
    } else {
        Ok(owned(raw))
    }
}

// ---------------------------------------------------------------------------
// `x-mcp-header` annotations.
// ---------------------------------------------------------------------------

/// One `x-mcp-header` annotation found in a tool's `inputSchema`.
#[derive(Debug, Clone)]
pub struct McpParamBinding {
    /// The `{name}` portion: the wire header is `Mcp-Param-{name}`.
    pub header_name: String,
    /// JSON-pointer path of the annotated property, relative to the arguments object.
    pub argument_pointer: String,
    /// The annotated property's declared `type` (`string`, `integer` or `boolean`).
    pub schema_type: String,
}

/// The characters of a binding's three fields.
pub struct BindingView {
    pub header_name: Seq<char>,
    pub argument_pointer: Seq<char>,
    pub schema_type: Seq<char>,
}

impl View for McpParamBinding {
    type V = BindingView;

    open spec fn view(&self) -> BindingView {
        BindingView {
            header_name: self.header_name@,
            argument_pointer: self.argument_pointer@,
            schema_type: self.schema_type@,
        }
    }
}

/// The views of a sequence of bindings.
pub open spec fn binding_views(v: Seq<McpParamBinding>) -> Seq<BindingView> {
    v.map_values(|b: McpParamBinding| b@)
}

/// Whether `c` is an RFC 9110 `tchar`: an ASCII letter or digit, or one of
/// ``!#$%&'*+-.^_`|~``.
pub open spec fn is_tchar(c: char) -> bool {
    ||| ('0' <= c && c <= '9')
    ||| ('a' <= c && c <= 'z')
    ||| ('A' <= c && c <= 'Z')
    ||| c == '!' || c == '#' || c == '$' || c == '%' || c == '&' || c == '\'' || c == '*'
    ||| c == '+' || c == '-' || c == '.' || c == '^' || c == '_' || c == '`' || c == '|'
    ||| c == '~'
}

/// A property name as a JSON-pointer reference token: `~` becomes `~0` and
/// `/` becomes `~1`.
pub open spec fn pointer_token(s: Seq<char>) -> Seq<char>
    decreases s.len(),
{
    if s.len() == 0 {
        seq![]
    } else {
        let c = s.last();
        pointer_token(s.drop_last()) + if c == '~' {
            seq!['~', '0']
        } else if c == '/' {
            seq!['~', '1']
        } else {
            seq![c]
        }
    }
}

/// The code of `c` with ASCII upper-case letters taken to lower case.
pub open spec fn ascii_lower_code(c: char) -> u32 {
    if 'A' <= c && c <= 'Z' {
        (c as u32 + 32) as u32
    } else {
        c as u32
    }
}

/// Whether `a` and `b` are equal up to ASCII case.
pub open spec fn eq_ignore_ascii_case(a: Seq<char>, b: Seq<char>) -> bool {
    a.len() == b.len() && forall|i: int| 0 <= i < a.len() ==> ascii_lower_code(#[trigger] a[i])
        == ascii_lower_code(b[i])
}

/// The declared `type` of a property schema, or the empty text.
pub open spec fn declared_type(schema: Json) -> Seq<char> {
    match member(schema, "type"@) {
        Some(Json::String(t)) => t@,
        _ => seq![],
    }
}

/// Whether a declared type may carry an `x-mcp-header`.
pub open spec fn header_type_permitted(t: Seq<char>) -> bool {
    t == "string"@ || t == "integer"@ || t == "boolean"@
}

/// The error for an annotation that is not a string.
pub open spec fn not_string_error(pointer: Seq<char>) -> Seq<char> {
    "x-mcp-header on '"@ + pointer + "' must be a string"@
}

/// The error for an empty annotation.
pub open spec fn empty_error(pointer: Seq<char>) -> Seq<char> {
    "x-mcp-header on '"@ + pointer + "' must not be empty"@
}

/// The error for an annotation that is not a field-name token.
pub open spec fn token_error(name: Seq<char>, pointer: Seq<char>) -> Seq<char> {
    "x-mcp-header '"@ + name + "' on '"@ + pointer + "' violates field-name token syntax"@
}

/// The error for an annotation on a property of another type.
pub open spec fn type_error(name: Seq<char>, pointer: Seq<char>, t: Seq<char>) -> Seq<char> {
    "x-mcp-header '"@ + name + "' on '"@ + pointer + "' targets type '"@ + t
        + "' \u{2014} only string/integer/boolean parameters are permitted"@
}

/// The error for two annotations equal up to ASCII case.
pub open spec fn duplicate_error(name: Seq<char>) -> Seq<char> {
    "x-mcp-header '"@ + name + "' is not case-insensitively unique"@
}

/// What the annotation on one property yields: no binding (no annotation),
/// one binding, or the error of the first constraint it breaks.
pub open spec fn property_binding(pointer: Seq<char>, schema: Json) -> Result<
    Seq<BindingView>,
    Seq<char>,
> {
    match member(schema, "x-mcp-header"@) {
        None => Ok(seq![]),
        Some(Json::String(n)) => {
            let name = n@;
            if name.len() == 0 {
                Err(empty_error(pointer))
            } else if !(forall|i: int| 0 <= i < name.len() ==> is_tchar(#[trigger] name[i])) {
                Err(token_error(name, pointer))
            } else if !header_type_permitted(declared_type(schema)) {
                Err(type_error(name, pointer, declared_type(schema)))
            } else {
                Ok(
                    seq![
                        BindingView {
                            header_name: name,
                            argument_pointer: pointer,
                            schema_type: declared_type(schema),
                        },
                    ],
                )
            }
        },
        Some(_) => Err(not_string_error(pointer)),
    }
}

/// Whether `r` is the success `v`.
pub open spec fn yields(r: Result<Seq<BindingView>, Seq<char>>, v: Seq<BindingView>) -> bool {
    r is Ok && r->Ok_0 == v
}

/// Whether `r` is the error `m`.
pub open spec fn fails_with(r: Result<Seq<BindingView>, Seq<char>>, m: Seq<char>) -> bool {
    r is Err && r->Err_0 == m
}

/// `acc` followed by the bindings of `r`, or the error of `r`.
pub open spec fn chain(acc: Seq<BindingView>, r: Result<Seq<BindingView>, Seq<char>>) -> Result<
    Seq<BindingView>,
    Seq<char>,
> {
    match r {
        Ok(b) => Ok(acc + b),
        Err(e) => Err(e),
    }
}

/// The bindings of the properties `entries[i..]` (pointers under `prefix`),
/// each property's own annotation first, then those nested in its
/// `properties`, in order; or the error of the first violation met.
pub open spec fn scan_properties(entries: Seq<(String, Json)>, i: int, prefix: Seq<char>) -> Result<
    Seq<BindingView>,
    Seq<char>,
>
    decreases entries, entries.len() - i,
{
    if i < 0 || i >= entries.len() {
        Ok(seq![])
    } else {
        let name = entries[i].0@;
        let schema = entries[i].1;
        let pointer = prefix + seq!['/'] + pointer_token(name);
        match property_binding(pointer, schema) {
            Err(e) => Err(e),
            Ok(here) => {
                let nested = match schema {
                    Json::Object(se) => {
                        let k = key_index(se@, "properties"@, 0);
                        if 0 <= k < se@.len() {
                            match se@[k].1 {
                                Json::Object(ne) => {
                                    proof {
                                        assert(decreases_to!(entries => entries[i]));
                                        assert(decreases_to!(entries[i] => entries[i].1));
                                        assert(decreases_to!(se@ => se@[k]));
                                        assert(decreases_to!(se@[k] => se@[k].1));
                                    }
                                    scan_properties(ne@, 0, pointer)
                                },
                                _ => Ok(seq![]),
                            }
                        } else {
                            Ok(seq![])
                        }
                    },
                    _ => Ok(seq![]),
                };
                match nested {
                    Err(e) => Err(e),
                    Ok(nb) => chain(here + nb, scan_properties(entries, i + 1, prefix)),
                }
            },
        }
    }
}

/// Whether the binding at `j` repeats, up to ASCII case, the header name of
/// an earlier one.
pub open spec fn repeats_earlier(bs: Seq<BindingView>, j: int) -> bool {
    exists|k: int| 0 <= k < j && eq_ignore_ascii_case(bs[k].header_name, bs[j].header_name)
}

/// Whether `j` is the first binding that repeats an earlier header name.
pub open spec fn is_first_repeat(bs: Seq<BindingView>, j: int) -> bool {
    &&& 0 <= j < bs.len()
    &&& repeats_earlier(bs, j)
    &&& forall|i: int| 0 <= i < j ==> !repeats_earlier(bs, i)
}

/// The annotations found below the `properties` of a tool `inputSchema`,
/// each checked on its own.
pub open spec fn found_bindings(input_schema: Json) -> Result<Seq<BindingView>, Seq<char>> {
    match member(input_schema, "properties"@) {
        Some(Json::Object(es)) => scan_properties(es@, 0, seq![]),
        _ => Ok(seq![]),
    }
}

/// The outcome of scanning a tool `inputSchema`: all annotations found below
/// its `properties` (at any nesting depth through `properties`), checked
/// one by one, then for case-insensitive uniqueness.
pub open spec fn scanned_bindings(input_schema: Json) -> Result<Seq<BindingView>, Seq<char>> {
    match found_bindings(input_schema) {
        Err(e) => Err(e),
        Ok(bs) => if exists|j: int| is_first_repeat(bs, j) {
            Err(duplicate_error(bs[choose|j: int| is_first_repeat(bs, j)].header_name))
        } else {
            Ok(bs)
        },
    }
}

/// Whether a binding meets the per-annotation constraints: a non-empty
/// field-name token on a `string`, `integer` or `boolean` property.
pub open spec fn binding_is_valid(b: BindingView) -> bool {
    &&& b.header_name.len() > 0
    &&& forall|i: int| 0 <= i < b.header_name.len() ==> is_tchar(#[trigger] b.header_name[i])
    &&& header_type_permitted(b.schema_type)
}

proof fn lemma_scan_properties_valid(entries: Seq<(String, Json)>, i: int, prefix: Seq<char>)
    ensures
        scan_properties(entries, i, prefix) is Ok ==> forall|k: int|
            0 <= k < scan_properties(entries, i, prefix)->Ok_0.len() ==> binding_is_valid(
                #[trigger] scan_properties(entries, i, prefix)->Ok_0[k],
            ),
    decreases entries, entries.len() - i,
{
    if 0 <= i < entries.len() {
        let name = entries[i].0@;
        let schema = entries[i].1;
        let pointer = prefix + seq!['/'] + pointer_token(name);
        lemma_scan_properties_valid(entries, i + 1, prefix);
        match schema {
            Json::Object(se) => {
                let k = key_index(se@, "properties"@, 0);
                if 0 <= k < se@.len() {
                    match se@[k].1 {
                        Json::Object(ne) => {
                            assert(decreases_to!(entries => entries[i]));
                            assert(decreases_to!(entries[i] => entries[i].1));
                            assert(decreases_to!(se@ => se@[k]));
                            assert(decreases_to!(se@[k] => se@[k].1));
                            lemma_scan_properties_valid(ne@, 0, pointer);
                        },
                        _ => {},
                    }
                }
            },
            _ => {},
        }
        let r = scan_properties(entries, i, prefix);
        if r is Ok {
            let here = property_binding(pointer, schema)->Ok_0;
            assert(forall|k: int| 0 <= k < here.len() ==> binding_is_valid(#[trigger] here[k]));
        }
    }
}

proof fn lemma_first_repeat_exists(bs: Seq<BindingView>, j: int)
    requires
        0 <= j < bs.len(),
        repeats_earlier(bs, j),
    ensures
        exists|x: int| is_first_repeat(bs, x),
    decreases j,
{
    if exists|i: int| 0 <= i < j && repeats_earlier(bs, i) {
        let i = choose|i: int| 0 <= i < j && repeats_earlier(bs, i);
        lemma_first_repeat_exists(bs, i);
    } else {
        assert(is_first_repeat(bs, j));
    }
}

/// Every binding that a successful scan returns meets the per-annotation
/// constraints, and no two of them name the same header up to ASCII case.
pub proof fn lemma_scanned_bindings_are_valid_and_distinct(input_schema: Json)
    ensures
        scanned_bindings(input_schema) matches Ok(bs) ==> {
            &&& forall|k: int| 0 <= k < bs.len() ==> binding_is_valid(#[trigger] bs[k])
            &&& forall|i: int, j: int|
                0 <= i < j < bs.len() ==> !eq_ignore_ascii_case(
                    #[trigger] bs[i].header_name,
                    #[trigger] bs[j].header_name,
                )
        },
{
    match member(input_schema, "properties"@) {
        Some(Json::Object(es)) => lemma_scan_properties_valid(es@, 0, seq![]),
        _ => {},
    }
    if let Ok(bs) = scanned_bindings(input_schema) {
        assert forall|i: int, j: int| 0 <= i < j < bs.len() implies !eq_ignore_ascii_case(
            #[trigger] bs[i].header_name,
            #[trigger] bs[j].header_name,
        ) by {
            if eq_ignore_ascii_case(bs[i].header_name, bs[j].header_name) {
                assert(repeats_earlier(bs, j));
                lemma_first_repeat_exists(bs, j);
            }
        }
    }
}

/// The properties reached from `entries[i..]` (pointers under `prefix`),
/// each with its JSON pointer: a property, then those nested in its
/// `properties`, then the following properties, in order. Only nested
/// `properties` maps are followed.
pub open spec fn reached_properties(entries: Seq<(String, Json)>, i: int, prefix: Seq<char>) -> Seq<(Seq<char>, Json)>
    decreases entries, entries.len() - i,
{
    if i < 0 || i >= entries.len() {
        seq![]
    } else {
        let schema = entries[i].1;
        let pointer = prefix + seq!['/'] + pointer_token(entries[i].0@);
        let nested = match schema {
            Json::Object(se) => {
                let k = key_index(se@, "properties"@, 0);
                if 0 <= k < se@.len() {
                    match se@[k].1 {
                        Json::Object(ne) => {
                            proof {
                                assert(decreases_to!(entries => entries[i]));
                                assert(decreases_to!(entries[i] => entries[i].1));
                                assert(decreases_to!(se@ => se@[k]));
                                assert(decreases_to!(se@[k] => se@[k].1));
                            }
                            reached_properties(ne@, 0, pointer)
                        },
                        _ => seq![],
                    }
                } else {
                    seq![]
                }
            },
            _ => seq![],
        };
        seq![(pointer, schema)] + nested + reached_properties(entries, i + 1, prefix)
    }
}

/// The properties a scan of a tool `inputSchema` reaches: those under its
/// `properties`, at any depth through nested `properties`.
pub open spec fn scanned_properties(input_schema: Json) -> Seq<(Seq<char>, Json)> {
    match member(input_schema, "properties"@) {
        Some(Json::Object(es)) => reached_properties(es@, 0, seq![]),
        _ => seq![],
    }
}

/// Whether the annotation of every property in `qs` meets its constraints
/// (a property without an annotation meets them).
pub open spec fn all_annotations_valid(qs: Seq<(Seq<char>, Json)>) -> bool {
    forall|k: int| 0 <= k < qs.len() ==> (#[trigger] property_binding(qs[k].0, qs[k].1)) is Ok
}

/// The bindings the annotations of `qs` declare, in order.
pub open spec fn declared_bindings(qs: Seq<(Seq<char>, Json)>) -> Seq<BindingView>
    decreases qs.len(),
{
    if qs.len() == 0 {
        seq![]
    } else {
        property_binding(qs[0].0, qs[0].1)->Ok_0 + declared_bindings(qs.drop_first())
    }
}

/// Whether no two bindings name the same header up to ASCII case.
pub open spec fn names_distinct(bs: Seq<BindingView>) -> bool {
    forall|i: int, j: int|
        0 <= i < j < bs.len() ==> !eq_ignore_ascii_case(#[trigger] bs[i].header_name, #[trigger] bs[j].header_name)
}

proof fn lemma_declared_bindings_concat(a: Seq<(Seq<char>, Json)>, b: Seq<(Seq<char>, Json)>)
    ensures
        declared_bindings(a + b) == declared_bindings(a) + declared_bindings(b),
        all_annotations_valid(a + b) == (all_annotations_valid(a) && all_annotations_valid(b)),
    decreases a.len(),
{
    if a.len() == 0 {
        assert(a + b =~= b);
        assert(declared_bindings(a) + declared_bindings(b) =~= declared_bindings(b));
    } else {
        lemma_declared_bindings_concat(a.drop_first(), b);
        assert((a + b).drop_first() =~= a.drop_first() + b);
        assert((a + b)[0] == a[0]);
        assert(declared_bindings(a + b) =~= declared_bindings(a) + declared_bindings(b));
    }
    if all_annotations_valid(a) && all_annotations_valid(b) {
        assert forall|k: int| 0 <= k < (a + b).len() implies (#[trigger] property_binding(
            (a + b)[k].0,
            (a + b)[k].1,
        )) is Ok by {
            if k < a.len() {
                assert((a + b)[k] == a[k]);
                assert(property_binding(a[k].0, a[k].1) is Ok);
            } else {
                assert((a + b)[k] == b[k - a.len()]);
                assert(property_binding(b[k - a.len()].0, b[k - a.len()].1) is Ok);
            }
        }
    }
    if all_annotations_valid(a + b) {
        assert forall|k: int| 0 <= k < a.len() implies (#[trigger] property_binding(a[k].0, a[k].1)) is Ok by {
            assert((a + b)[k] == a[k]);
            assert(property_binding((a + b)[k].0, (a + b)[k].1) is Ok);
        }
        assert forall|k: int| 0 <= k < b.len() implies (#[trigger] property_binding(b[k].0, b[k].1)) is Ok by {
            assert((a + b)[k + a.len()] == b[k]);
            assert(property_binding((a + b)[k + a.len()].0, (a + b)[k + a.len()].1) is Ok);
        }
    }
}

proof fn lemma_scan_properties_reached(entries: Seq<(String, Json)>, i: int, prefix: Seq<char>)
    ensures
        (scan_properties(entries, i, prefix) is Ok) == all_annotations_valid(reached_properties(entries, i, prefix)),
        scan_properties(entries, i, prefix) is Ok ==> scan_properties(entries, i, prefix)->Ok_0
            == declared_bindings(reached_properties(entries, i, prefix)),
    decreases entries, entries.len() - i,
{
    if 0 <= i < entries.len() {
        let schema = entries[i].1;
        let pointer = prefix + seq!['/'] + pointer_token(entries[i].0@);
        let q = seq![(pointer, schema)];
        let rest = reached_properties(entries, i + 1, prefix);
        lemma_scan_properties_reached(entries, i + 1, prefix);
        let mut nested: Seq<(Seq<char>, Json)> = seq![];
        match schema {
            Json::Object(se) => {
                let k = key_index(se@, "properties"@, 0);
                if 0 <= k < se@.len() {
                    match se@[k].1 {
                        Json::Object(ne) => {
                            assert(decreases_to!(entries => entries[i]));
                            assert(decreases_to!(entries[i] => entries[i].1));
                            assert(decreases_to!(se@ => se@[k]));
                            assert(decreases_to!(se@[k] => se@[k].1));
                            lemma_scan_properties_reached(ne@, 0, pointer);
                            nested = reached_properties(ne@, 0, pointer);
                        },
                        _ => {},
                    }
                }
            },
            _ => {},
        }
        let all = reached_properties(entries, i, prefix);
        assert(all == q + nested + rest);
        lemma_declared_bindings_concat(q, nested);
        lemma_declared_bindings_concat(q + nested, rest);
        assert(q.drop_first() =~= Seq::<(Seq<char>, Json)>::empty());
        assert(declared_bindings(q.drop_first()) =~= Seq::<BindingView>::empty());
        assert(q[0] == (pointer, schema));
        assert(declared_bindings(q) =~= property_binding(pointer, schema)->Ok_0);
        assert(all_annotations_valid(q) == (property_binding(pointer, schema) is Ok)) by {
            assert(q[0] == (pointer, schema));
        }
        let r = scan_properties(entries, i, prefix);
        if r is Ok {
            assert(r->Ok_0 =~= declared_bindings(all));
        }
    }
}

/// A scan of a tool `inputSchema` succeeds exactly where the annotation of
/// every property it reaches meets its constraints (a non-empty header name
/// of field-name characters on a `string`, `integer` or `boolean` property)
/// and no two annotations name the same header up to ASCII case; it then
/// yields one binding per annotation, in the order the properties are
/// reached.
pub proof fn lemma_scan_succeeds_exactly_on_valid_distinct_annotations(input_schema: Json)
    ensures
        (scanned_bindings(input_schema) is Ok) == (all_annotations_valid(scanned_properties(input_schema))
            && names_distinct(declared_bindings(scanned_properties(input_schema)))),
        scanned_bindings(input_schema) is Ok ==> scanned_bindings(input_schema)->Ok_0 == declared_bindings(
            scanned_properties(input_schema),
        ),
{
    match member(input_schema, "properties"@) {
        Some(Json::Object(es)) => lemma_scan_properties_reached(es@, 0, seq![]),
        _ => {
            assert(all_annotations_valid(scanned_properties(input_schema)));
        },
    }
    lemma_scanned_bindings_are_valid_and_distinct(input_schema);
    let qs = scanned_properties(input_schema);
    if found_bindings(input_schema) is Ok {
        let bs = found_bindings(input_schema)->Ok_0;
        assert(bs == declared_bindings(qs));
        if names_distinct(bs) {
            assert forall|j: int| !is_first_repeat(bs, j) by {
                if is_first_repeat(bs, j) {
                    let k = choose|k: int| 0 <= k < j && eq_ignore_ascii_case(bs[k].header_name, bs[j].header_name);
                    assert(!eq_ignore_ascii_case(bs[k].header_name, bs[j].header_name));
                }
            }
        }
    }
}

fn is_tchar_exec(c: char) -> (r: bool)
    ensures
        r == is_tchar(c),
{
    ('0' <= c && c <= '9') || ('a' <= c && c <= 'z') || ('A' <= c && c <= 'Z') || c == '!' || c
        == '#' || c == '$' || c == '%' || c == '&' || c == '\'' || c == '*' || c == '+' || c == '-'
        || c == '.' || c == '^' || c == '_' || c == '`' || c == '|' || c == '~'
}

fn all_tchar(v: &Vec<char>) -> (r: bool)
    ensures
        r == forall|i: int| 0 <= i < v@.len() ==> is_tchar(#[trigger] v@[i]),
{
    let mut i: usize = 0;
    while i < v.len()
        invariant
            i <= v.len(),
            forall|j: int| 0 <= j < i ==> is_tchar(#[trigger] v@[j]),
        decreases v.len() - i,
    {
        if !is_tchar_exec(v[i]) {
            return false;
        }
        i = i + 1;
    }
    true
}

fn pointer_token_exec(name: &Vec<char>) -> (r: Vec<char>)
    ensures
        r@ == pointer_token(name@),
{
    let mut out: Vec<char> = Vec::new();
    let mut i: usize = 0;
    while i < name.len()
        invariant
            i <= name.len(),
            out@ == pointer_token(name@.take(i as int)),
        decreases name.len() - i,
    {
        let c = name[i];
        assert(name@.take(i + 1).drop_last() =~= name@.take(i as int));
        if c == '~' {
            out.push('~');
            out.push('0');
        } else if c == '/' {
            out.push('~');
            out.push('1');
        } else {
            out.push(c);
        }
        i = i + 1;
        assert(out@ =~= pointer_token(name@.take(i as int)));
    }
    assert(name@.take(name.len() as int) =~= name@);
    out
}

fn ascii_lower_code_exec(c: char) -> (r: u32)
    ensures
        r == ascii_lower_code(c),
{
    if 'A' <= c && c <= 'Z' {
        c as u32 + 32
    } else {
        c as u32
    }
}

fn eq_ignore_ascii_case_exec(a: &Vec<char>, b: &Vec<char>) -> (r: bool)
    ensures
        r == eq_ignore_ascii_case(a@, b@),
{
    if a.len() != b.len() {
        return false;
    }
    let mut i: usize = 0;
    while i < a.len()
        invariant
            a.len() == b.len(),
            i <= a.len(),
            forall|j: int| 0 <= j < i ==> ascii_lower_code(#[trigger] a@[j]) == ascii_lower_code(b@[j]),
        decreases a.len() - i,
    {
        if ascii_lower_code_exec(a[i]) != ascii_lower_code_exec(b[i]) {
            return false;
        }
        i = i + 1;
    }
    true
}

fn str_value(s: &str) -> (r: String)
    ensures
        r@ == s@,
{
    owned(s)
}

/// Checks the annotation on one property and returns its binding, if any.
fn check_property(pointer: &Vec<char>, schema: &Json) -> (r: Result<Option<McpParamBinding>, String>)
    ensures
        match r {
            Ok(None) => yields(property_binding(pointer@, *schema), seq![]),
            Ok(Some(b)) => yields(property_binding(pointer@, *schema), seq![b@]),
            Err(m) => fails_with(property_binding(pointer@, *schema), m@),
        },
{
    let key = str_value("x-mcp-header");
    let pstr = string_of(pointer);
    match get_member(schema, &key) {
        None => Ok(None),
        Some(Json::String(n)) => {
            let name = chars_of(n.as_str());
            if name.len() == 0 {
                return Err(concat3("x-mcp-header on '", pstr.as_str(), "' must not be empty"));
            }
            if !all_tchar(&name) {
                return Err(
                    concat5(
                        "x-mcp-header '",
                        n.as_str(),
                        "' on '",
                        pstr.as_str(),
                        "' violates field-name token syntax",
                    ),
                );
            }
            let tkey = str_value("type");
            let t: String = match get_member(schema, &tkey) {
                Some(Json::String(t)) => t.clone(),
                _ => String::new(),
            };
            assert(t@ == declared_type(*schema));
            let s1 = str_value("string");
            let s2 = str_value("integer");
            let s3 = str_value("boolean");
            if !(t == s1 || t == s2 || t == s3) {
                return Err(
                    concat7(
                        "x-mcp-header '",
                        n.as_str(),
                        "' on '",
                        pstr.as_str(),
                        "' targets type '",
                        t.as_str(),
                        "' \u{2014} only string/integer/boolean parameters are permitted",
                    ),
                );
            }
            Ok(Some(McpParamBinding { header_name: n.clone(), argument_pointer: pstr, schema_type: t }))
        },
        Some(_) => Err(concat3("x-mcp-header on '", pstr.as_str(), "' must be a string")),
    }
}

proof fn lemma_chain_assoc(a: Seq<BindingView>, b: Seq<BindingView>, r: Result<Seq<BindingView>, Seq<char>>)
    ensures
        chain(a, chain(b, r)) == chain(a + b, r),
{
    if r is Ok {
        assert(a + (b + r->Ok_0) =~= (a + b) + r->Ok_0);
    }
}

/// Walks `entries` (pointers under `prefix`), appending the bindings found.
fn walk(entries: &Vec<(String, Json)>, prefix: &Vec<char>, out: &mut Vec<McpParamBinding>) -> (r: Result<(), String>)
    ensures
        r is Ok ==> yields(
            chain(binding_views(old(out)@), scan_properties(entries@, 0, prefix@)),
            binding_views(final(out)@),
        ),
        r matches Err(m) ==> fails_with(scan_properties(entries@, 0, prefix@), m@),
    decreases entries@,
{
    let ghost start = binding_views(out@);
    let ghost s0 = scan_properties(entries@, 0, prefix@);
    let mut i: usize = 0;
    while i < entries.len()
        invariant
            i <= entries.len(),
            chain(start, s0) == chain(binding_views(out@), scan_properties(entries@, i as int, prefix@)),
            s0 == scan_properties(entries@, 0, prefix@),
        decreases entries.len() - i,
    {
        let ghost before = binding_views(out@);
        let name = chars_of(entries[i].0.as_str());
        let schema = &entries[i].1;
        let mut pointer = sub_chars(prefix, 0, prefix.len());
        pointer.push('/');
        let mut tok = pointer_token_exec(&name);
        pointer.append(&mut tok);
        assert(prefix@.subrange(0, prefix@.len() as int) =~= prefix@);
        assert(pointer@ =~= prefix@ + seq!['/'] + pointer_token(entries@[i as int].0@));
        match check_property(&pointer, schema) {
            Err(m) => {
                return Err(m);
            },
            Ok(b) => {
                match b {
                    Some(b) => {
                        out.push(b);
                    },
                    None => {},
                }
            },
        }
        assert(binding_views(out@) =~= before + property_binding(pointer@, *schema)->Ok_0);
        let ghost mid = binding_views(out@);
        match schema {
            Json::Object(se) => {
                let pk = str_value("properties");
                match find_key(se, &pk) {
                    Some(k) => {
                        match &se[k].1 {
                            Json::Object(ne) => {
                                proof {
                                    assert(decreases_to!(entries@ => entries@[i as int]));
                                    assert(decreases_to!(entries@[i as int] => entries@[i as int].1));
                                    assert(decreases_to!(entries@[i as int].1 => (entries@[i as int].1)->Object_0));
                                    assert(decreases_to!(se@ => se@[k as int]));
                                    assert(decreases_to!(se@[k as int] => se@[k as int].1));
                                    assert(decreases_to!(se@[k as int].1 => (se@[k as int].1)->Object_0));
                                }
                                let rr = walk(ne, &pointer, out);
                                match rr {
                                    Err(m) => {
                                        return Err(m);
                                    },
                                    Ok(()) => {},
                                }
                                proof {
                                    let here = property_binding(pointer@, *schema)->Ok_0;
                                    let nb = scan_properties(ne@, 0, pointer@)->Ok_0;
                                    assert(binding_views(out@) == mid + nb);
                                    lemma_chain_assoc(before, here + nb, scan_properties(entries@, i + 1, prefix@));
                                    assert(before + (here + nb) =~= mid + nb);
                                }
                            },
                            _ => {},
                        }
                    },
                    None => {},
                }
            },
            _ => {},
        }
        proof {
            let here = property_binding(pointer@, *schema)->Ok_0;
            let sch: Json = *schema;
            let nested = match sch {
                Json::Object(se) => {
                    let k = key_index(se@, "properties"@, 0);
                    if 0 <= k < se@.len() {
                        match se@[k].1 {
                            Json::Object(ne) => scan_properties(ne@, 0, pointer@),
                            _ => Ok(seq![]),
                        }
                    } else {
                        Ok(seq![])
                    }
                },
                _ => Ok(seq![]),
            };
            assert(nested is Ok);
            assert(binding_views(out@) == before + (here + nested->Ok_0));
            lemma_chain_assoc(before, here + nested->Ok_0, scan_properties(entries@, i + 1, prefix@));
            assert(before + (here + nested->Ok_0) =~= binding_views(out@));
        }
        i = i + 1;
    }
    Ok(())
}

proof fn lemma_first_repeat_unique(bs: Seq<BindingView>, a: int, b: int)
    requires
        is_first_repeat(bs, a),
        is_first_repeat(bs, b),
    ensures
        a == b,
{
}

/// Scans a tool `inputSchema` for `x-mcp-header` annotations (at any depth
/// through `properties`) and checks the constraints on each: a non-empty
/// string of field-name tokens, on a `string`, `integer` or `boolean`
/// property; then that the names are unique up to ASCII case. A violation
/// makes the whole tool definition invalid, and the error names the first one.
pub fn scan_x_mcp_headers(input_schema: &Json) -> (r: Result<Vec<McpParamBinding>, String>)
    ensures
        r matches Ok(v) ==> yields(scanned_bindings(*input_schema), binding_views(v@)),
        r matches Err(m) ==> fails_with(scanned_bindings(*input_schema), m@),
{
    let mut out: Vec<McpParamBinding> = Vec::new();
    let pk = str_value("properties");
    match get_member(input_schema, &pk) {
        Some(Json::Object(es)) => {
            let root: Vec<char> = Vec::new();
            match walk(es, &root, &mut out) {
                Err(m) => {
                    return Err(m);
                },
                Ok(()) => {},
            }
            assert(binding_views(Seq::<McpParamBinding>::empty()) =~= Seq::<BindingView>::empty());
            let ghost sc = scan_properties(es@, 0, seq![]);
            assert(sc is Ok);
            assert(Seq::<BindingView>::empty() + sc->Ok_0 =~= sc->Ok_0);
        },
        _ => {
            assert(binding_views(out@) =~= Seq::<BindingView>::empty());
        },
    }
    let ghost bs = binding_views(out@);
    assert(bs.len() == out@.len());
    assert(yields(found_bindings(*input_schema), bs));
    let n = out.len();
    let mut j: usize = 0;
    while j < n
        invariant
            n == out@.len(),
            bs == binding_views(out@),
            yields(found_bindings(*input_schema), bs),
            j <= n,
            forall|jj: int| 0 <= jj < j ==> !repeats_earlier(bs, jj),
        decreases n - j,
    {
        let hj = chars_of(out[j].header_name.as_str());
        assert(bs[j as int] == out@[j as int]@);
        let mut k: usize = 0;
        while k < j
            invariant
                n == out@.len(),
                bs == binding_views(out@),
                yields(found_bindings(*input_schema), bs),
                j < n,
                k <= j,
                hj@ == bs[j as int].header_name,
                forall|jj: int| 0 <= jj < j ==> !repeats_earlier(bs, jj),
                forall|kk: int| 0 <= kk < k ==> !eq_ignore_ascii_case(bs[kk].header_name, bs[j as int].header_name),
            decreases j - k,
        {
            let hk = chars_of(out[k].header_name.as_str());
            assert(bs[k as int] == out@[k as int]@);
            if eq_ignore_ascii_case_exec(&hk, &hj) {
                proof {
                    assert(repeats_earlier(bs, j as int));
                    assert(is_first_repeat(bs, j as int));
                    let c = choose|x: int| is_first_repeat(bs, x);
                    lemma_first_repeat_unique(bs, c, j as int);
                }
                return Err(concat3("x-mcp-header '", out[j].header_name.as_str(), "' is not case-insensitively unique"));
            }
            k = k + 1;
        }
        j = j + 1;
    }
    assert(!exists|x: int| is_first_repeat(bs, x)) by {
        if exists|x: int| is_first_repeat(bs, x) {
            let x = choose|x: int| is_first_repeat(bs, x);
            assert(!repeats_earlier(bs, x));
        }
    }
    Ok(out)
}

// ---------------------------------------------------------------------------
// Laws on the header names and the parameter values.
// ---------------------------------------------------------------------------

/// Whether `c` is a character of an RFC 9110 field-name token (`tchar`):
/// an ASCII letter or digit, or one of the fifteen marks listed below.
pub open spec fn field_name_char(c: char) -> bool {
    ||| ('0' <= c && c <= '9')
    ||| ('a' <= c && c <= 'z')
    ||| ('A' <= c && c <= 'Z')
    ||| "!#$%&'*+-.^_`|~"@.contains(c)
}

/// The header-name check accepts exactly the RFC 9110 token characters.
pub proof fn lemma_tchar_is_rfc9110_token_char(c: char)
    ensures
        is_tchar(c) <==> field_name_char(c),
{
    reveal_strlit("!#$%&'*+-.^_`|~");
    let marks = "!#$%&'*+-.^_`|~"@;
    assert(marks =~= seq!['!', '#', '$', '%', '&', '\'', '*', '+', '-', '.', '^', '_', '`', '|', '~']);
    if marks.contains(c) {
        let k = choose|k: int| 0 <= k < marks.len() && marks[k] == c;
        assert(0 <= k < 15);
    }
    if c == '!' { assert(marks[0] == c); }
    if c == '#' { assert(marks[1] == c); }
    if c == '$' { assert(marks[2] == c); }
    if c == '%' { assert(marks[3] == c); }
    if c == '&' { assert(marks[4] == c); }
    if c == '\'' { assert(marks[5] == c); }
    if c == '*' { assert(marks[6] == c); }
    if c == '+' { assert(marks[7] == c); }
    if c == '-' { assert(marks[8] == c); }
    if c == '.' { assert(marks[9] == c); }
    if c == '^' { assert(marks[10] == c); }
    if c == '_' { assert(marks[11] == c); }
    if c == '`' { assert(marks[12] == c); }
    if c == '|' { assert(marks[13] == c); }
    if c == '~' { assert(marks[14] == c); }
}

proof fn lemma_pointer_token_plain(s: Seq<char>)
    requires
        forall|k: int| 0 <= k < s.len() ==> s[k] != '/' && s[k] != '~',
    ensures
        pointer_token(s) == s,
    decreases s.len(),
{
    if s.len() > 0 {
        lemma_pointer_token_plain(s.drop_last());
        assert(s.drop_last() + seq![s.last()] =~= s);
    }
}

/// Whether `schema` is a tool `inputSchema` whose `properties` hold one
/// property, named `prop`, whose schema is `{"type": ty, "x-mcp-header": name}`.
pub open spec fn one_annotated_property(schema: Json, prop: Seq<char>, ty: Seq<char>, name: Seq<char>) -> bool {
    match schema {
        Json::Object(top) => top@.len() == 1 && top@[0].0@ == "properties"@ && match top@[0].1 {
            Json::Object(props) => props@.len() == 1 && props@[0].0@ == prop && match props@[0].1 {
                Json::Object(fields) => {
                    &&& fields@.len() == 2
                    &&& fields@[0].0@ == "type"@
                    &&& fields@[0].1 matches Json::String(t) && t@ == ty
                    &&& fields@[1].0@ == "x-mcp-header"@
                    &&& fields@[1].1 matches Json::String(n) && n@ == name
                },
                _ => false,
            },
            _ => false,
        },
        _ => false,
    }
}

/// Scanning a schema with one annotated property (whose name needs no
/// escaping in a JSON pointer): a non-empty header name of RFC 9110 token
/// characters on a `string`, `integer` or `boolean` property yields exactly
/// one binding, of that name, at `/prop`, of that type; a name with any other
/// character is refused as a token violation; an empty name is refused as
/// empty.
pub proof fn lemma_single_annotation_scan(schema: Json, prop: Seq<char>, ty: Seq<char>, name: Seq<char>)
    requires
        one_annotated_property(schema, prop, ty, name),
        ty == "string"@ || ty == "integer"@ || ty == "boolean"@,
        forall|k: int| 0 <= k < prop.len() ==> prop[k] != '/' && prop[k] != '~',
    ensures
        name.len() > 0 && (forall|k: int| 0 <= k < name.len() ==> field_name_char(#[trigger] name[k]))
            ==> scanned_bindings(schema) == Ok::<Seq<BindingView>, Seq<char>>(
            seq![BindingView { header_name: name, argument_pointer: seq!['/'] + prop, schema_type: ty }],
        ),
        name.len() > 0 && (exists|k: int| 0 <= k < name.len() && !field_name_char(#[trigger] name[k]))
            ==> scanned_bindings(schema) == Err::<Seq<BindingView>, Seq<char>>(
            token_error(name, seq!['/'] + prop),
        ),
        name.len() == 0 ==> scanned_bindings(schema) == Err::<Seq<BindingView>, Seq<char>>(
            empty_error(seq!['/'] + prop),
        ),
{
    reveal_strlit("properties");
    reveal_strlit("type");
    reveal_strlit("x-mcp-header");
    reveal_strlit("string");
    reveal_strlit("integer");
    reveal_strlit("boolean");
    let top = schema->Object_0@;
    let props = top[0].1->Object_0@;
    let fields = props[0].1->Object_0@;
    assert(key_index(top, "properties"@, 0) == 0);
    assert(member(schema, "properties"@) == Some(top[0].1));
    lemma_pointer_token_plain(prop);
    let pointer = seq![] + seq!['/'] + pointer_token(prop);
    assert(pointer =~= seq!['/'] + prop);
    assert("type"@ != "x-mcp-header"@) by {
        assert("type"@.len() != "x-mcp-header"@.len());
    }
    assert(key_index(fields, "x-mcp-header"@, 1) == 1);
    assert(key_index(fields, "x-mcp-header"@, 0) == 1);
    assert(member(props[0].1, "x-mcp-header"@) == Some(fields[1].1));
    assert(key_index(fields, "type"@, 0) == 0);
    assert(declared_type(props[0].1) == ty);
    assert("type"@ != "properties"@) by {
        assert("type"@.len() != "properties"@.len());
    }
    assert("x-mcp-header"@ != "properties"@) by {
        assert("x-mcp-header"@.len() != "properties"@.len());
    }
    lemma_key_index_first(fields, "properties"@, 0);
    assert(key_index(fields, "properties"@, 0) == -1);
    assert(header_type_permitted(ty));
    assert(scan_properties(props, 1, seq![]) == Ok::<Seq<BindingView>, Seq<char>>(seq![]));
    assert forall|c: char| is_tchar(c) <==> field_name_char(c) by {
        lemma_tchar_is_rfc9110_token_char(c);
    }
    let b = BindingView { header_name: name, argument_pointer: seq!['/'] + prop, schema_type: ty };
    if name.len() > 0 && (forall|k: int| 0 <= k < name.len() ==> field_name_char(#[trigger] name[k])) {
        assert(property_binding(pointer, props[0].1) == Ok::<Seq<BindingView>, Seq<char>>(seq![b]));
        assert(seq![b] + seq![] + seq![] =~= seq![b]);
        assert(found_bindings(schema) == Ok::<Seq<BindingView>, Seq<char>>(seq![b]));
        assert forall|j: int| !is_first_repeat(seq![b], j) by {}
    }
    if name.len() > 0 && (exists|k: int| 0 <= k < name.len() && !field_name_char(#[trigger] name[k])) {
        let k = choose|k: int| 0 <= k < name.len() && !field_name_char(#[trigger] name[k]);
        assert(!is_tchar(name[k]));
        assert(property_binding(pointer, props[0].1) == Err::<Seq<BindingView>, Seq<char>>(token_error(name, pointer)));
    }
    if name.len() == 0 {
        assert(property_binding(pointer, props[0].1) == Err::<Seq<BindingView>, Seq<char>>(empty_error(pointer)));
    }
}

proof fn lemma_nat_decimal_digits(n: nat)
    ensures
        nat_decimal(n).len() > 0,
        forall|k: int| 0 <= k < nat_decimal(n).len() ==> '0' <= #[trigger] nat_decimal(n)[k] && nat_decimal(n)[k] <= '9',
    decreases n,
{
    if n >= 10 {
        lemma_nat_decimal_digits(n / 10);
        let p = nat_decimal(n / 10);
        assert forall|k: int| 0 <= k < nat_decimal(n).len() implies '0' <= #[trigger] nat_decimal(n)[k] && nat_decimal(n)[k] <= '9' by {
            if k < p.len() {
                assert(nat_decimal(n)[k] == p[k]);
            }
        }
    }
}

/// Decimal text (digits, and a leading `-` when negative) is plain header
/// text: it is never Base64-wrapped.
proof fn lemma_decimal_is_plain(x: int)
    ensures
        !needs_base64(int_decimal(x)),
{
    let p = int_decimal(x);
    let m: nat = if x < 0 { (-x) as nat } else { x as nat };
    lemma_nat_decimal_digits(m);
    let d = nat_decimal(m);
    assert forall|k: int| 0 <= k < p.len() implies (p[k] == '-' || ('0' <= p[k] && p[k] <= '9')) by {
        if x < 0 {
            if k > 0 {
                assert(p[k] == d[k - 1]);
            }
        } else {
            assert(p[k] == d[k]);
        }
    }
    assert forall|k: int| 0 <= k < p.len() implies is_header_printable(#[trigger] p[k]) by {
        assert(p[k] == '-' || ('0' <= p[k] && p[k] <= '9'));
    }
    assert(p.len() > 0);
    assert(p[0] == '-' || ('0' <= p[0] && p[0] <= '9'));
    assert(p[p.len() - 1] == '-' || ('0' <= p[p.len() - 1] && p[p.len() - 1] <= '9'));
    assert(!trim_changes(p));
    if starts_with(p, base64_prefix()) {
        assert(p.subrange(0, 9)[0] == p[0]);
        assert(base64_prefix()[0] == '=');
    }
}

/// An integer parameter rides as its decimal text exactly where it lies in
/// the JavaScript safe range `-(2^53 - 1) ..= 2^53 - 1`; outside it, and for
/// a float, there is no header value.
pub proof fn lemma_integer_params_encode_in_decimal(u: u64, i: i64, bits: u64)
    ensures
        encoded_param(Json::Number(JsonNumber::PosInt(u))) == (if u <= 9_007_199_254_740_991u64 {
            Some(int_decimal(u as int))
        } else {
            None::<Seq<char>>
        }),
        encoded_param(Json::Number(JsonNumber::NegInt(i))) == (if -9_007_199_254_740_991i64 <= i
            && i <= 9_007_199_254_740_991i64 {
            Some(int_decimal(i as int))
        } else {
            None::<Seq<char>>
        }),
        encoded_param(Json::Number(JsonNumber::FloatBits(bits))) is None,
{
    lemma_decimal_is_plain(u as int);
    lemma_decimal_is_plain(i as int);
}

/// A string parameter rides as it is where it is printable ASCII (space to
/// `~`) with no white space at either end and does not itself look wrapped
/// (`=?base64?` ... `?=`); otherwise as `=?base64?`, the standard Base64 of
/// its UTF-8 bytes, and `?=`. A boolean rides as `true` or `false`; objects,
/// arrays and `null` have no header value.
pub proof fn lemma_string_and_boolean_params(v: Json)
    ensures
        v matches Json::String(s) ==> {
            let t = s@;
            let plain = (forall|k: int| 0 <= k < t.len() ==> 0x20 <= (#[trigger] t[k] as u32) <= 0x7e)
                && !(t.len() > 0 && (is_unicode_whitespace(t[0]) || is_unicode_whitespace(t[t.len() - 1])))
                && !(starts_with(t, "=?base64?"@) && ends_with(t, "?="@));
            encoded_param(v) == if plain {
                Some(t)
            } else {
                Some("=?base64?"@ + base64_standard_encode(encode_utf8(t)) + "?="@)
            }
        },
        v == Json::Bool(true) ==> encoded_param(v) == Some("true"@),
        v == Json::Bool(false) ==> encoded_param(v) == Some("false"@),
        (v is Object || v is Array || v is Null) ==> encoded_param(v) is None,
{
    reveal_strlit("=?base64?");
    reveal_strlit("?=");
    reveal_strlit("true");
    reveal_strlit("false");
    assert(base64_prefix() =~= "=?base64?"@);
    assert(base64_suffix() =~= "?="@);
    if let Json::String(s) = v {
        let t = s@;
        if forall|k: int| 0 <= k < t.len() ==> 0x20 <= (#[trigger] t[k] as u32) <= 0x7e {
            assert forall|k: int| 0 <= k < t.len() implies is_header_printable(#[trigger] t[k]) by {
                assert(0x20 <= (t[k] as u32) <= 0x7e);
            }
        } else {
            let k = choose|k: int| 0 <= k < t.len() && !(0x20 <= (#[trigger] t[k] as u32) <= 0x7e);
            assert(!is_header_printable(t[k]));
        }
    }
}

/// Header names are compared up to ASCII case: two names match exactly
/// when they have the same length and, at each position, the same character
/// or the same ASCII letter in the other case.
pub proof fn lemma_header_names_match_up_to_ascii_case(a: Seq<char>, b: Seq<char>)
    ensures
        eq_ignore_ascii_case(a, b) <==> (a.len() == b.len() && forall|k: int| 0 <= k < a.len() ==> {
            ||| #[trigger] a[k] == b[k]
            ||| ('A' <= a[k] && a[k] <= 'Z' && (b[k] as u32) == (a[k] as u32) + 32)
            ||| ('A' <= b[k] && b[k] <= 'Z' && (a[k] as u32) == (b[k] as u32) + 32)
        }),
{
    if a.len() == b.len() {
        assert forall|k: int| 0 <= k < a.len() implies (ascii_lower_code(#[trigger] a[k]) == ascii_lower_code(b[k]) <==> {
            ||| a[k] == b[k]
            ||| ('A' <= a[k] && a[k] <= 'Z' && (b[k] as u32) == (a[k] as u32) + 32)
            ||| ('A' <= b[k] && b[k] <= 'Z' && (a[k] as u32) == (b[k] as u32) + 32)
        }) by {
            let x = a[k];
            let y = b[k];
            if x != y {
                vstd::utf8::char_u32_cast(x, x as u32);
                vstd::utf8::char_u32_cast(y, y as u32);
            }
        }
    }
}

/// A header value that is not wrapped, one that does not begin with
/// `=?base64?` and then end with `?=`, decodes to itself.
pub proof fn lemma_unwrapped_values_decode_to_themselves(raw: Seq<char>)
    requires
        !(raw.len() >= 11 && raw.subrange(0, 9) == "=?base64?"@ && raw.subrange(raw.len() - 2, raw.len() as int)
            == "?="@),
    ensures
        decoded_param(raw) == Ok::<Seq<char>, Seq<char>>(raw),
{
    reveal_strlit("=?base64?");
    reveal_strlit("?=");
    assert(base64_prefix() =~= "=?base64?"@);
    assert(base64_suffix() =~= "?="@);
    if starts_with(raw, base64_prefix()) && ends_with(raw.skip(9), base64_suffix()) {
        let t = raw.skip(9);
        assert(t.subrange(t.len() - 2, t.len() as int) =~= raw.subrange(raw.len() - 2, raw.len() as int));
    }
}

/// A property name becomes a JSON-pointer reference token character by
/// character: `~` as `~0`, `/` as `~1`, every other character as itself.
pub proof fn lemma_pointer_token_escapes(a: Seq<char>, b: Seq<char>, c: char)
    ensures
        pointer_token(a + b) == pointer_token(a) + pointer_token(b),
        pointer_token(seq![c]) == if c == '~' {
            "~0"@
        } else if c == '/' {
            "~1"@
        } else {
            seq![c]
        },
    decreases b.len(),
{
    reveal_strlit("~0");
    reveal_strlit("~1");
    assert(seq![c].drop_last() =~= Seq::<char>::empty());
    assert(seq![c].last() == c);
    assert(pointer_token(Seq::<char>::empty()) == Seq::<char>::empty());
    assert(seq!['~', '0'] =~= "~0"@);
    assert(seq!['~', '1'] =~= "~1"@);
    assert(Seq::<char>::empty() + seq!['~', '0'] =~= seq!['~', '0']);
    assert(Seq::<char>::empty() + seq!['~', '1'] =~= seq!['~', '1']);
    assert(Seq::<char>::empty() + seq![c] =~= seq![c]);
    assert(pointer_token(seq![c]) =~= if c == '~' {
        "~0"@
    } else if c == '/' {
        "~1"@
    } else {
        seq![c]
    });
    if b.len() > 0 {
        lemma_pointer_token_escapes(a, b.drop_last(), c);
        assert((a + b).drop_last() =~= a + b.drop_last());
        assert((a + b).last() == b.last());
    } else {
        assert(a + b =~= a);
        assert(pointer_token(b) =~= Seq::<char>::empty());
    }
}

} // verus!
