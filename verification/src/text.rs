//! Character-level helpers on strings, stated over their `Seq<char>` views.

use vstd::prelude::*;
use vstd::string::*;
use vstd::std_specs::iter::IteratorSpec;

verus! {

broadcast use {vstd::string::axiom_spec_iter, vstd::string::next_postcondition};

/// The characters of `s`, in order.
pub fn chars_of(s: &str) -> (v: Vec<char>)
    ensures
        v@ == s@,
{
    let mut v: Vec<char> = Vec::new();
    for c in it: s.chars()
        invariant
            it.seq() == s@,
            v@ == s@.take(it.index() as int),
    {
        v.push(c);
    }
    assert(v@ == s@);
    v
}

/// A `String` holding exactly the characters of `v`.
#[verifier::external_body]
pub(crate) fn string_of(v: &Vec<char>) -> (s: String)
    ensures
        s@ == v@,
{
    String::from_iter(v.iter())
}

/// An owned copy of `s`.
pub fn owned(s: &str) -> (r: String)
    ensures
        r@ == s@,
{
    broadcast use vstd::string::to_string_from_display_ensures_for_str;
    s.to_string()
}

/// `a` followed by `b`.
pub fn concat2(a: &str, b: &str) -> (r: String)
    ensures
        r@ == a@ + b@,
{
    let mut r = owned(a);
    r.append(b);
    r
}

/// `a`, `b` and `c` in sequence.
pub fn concat3(a: &str, b: &str, c: &str) -> (r: String)
    ensures
        r@ == a@ + b@ + c@,
{
    let mut r = owned(a);
    r.append(b);
    r.append(c);
    r
}

/// `a` to `d` in sequence.
pub fn concat4(a: &str, b: &str, c: &str, d: &str) -> (r: String)
    ensures
        r@ == a@ + b@ + c@ + d@,
{
    let mut r = owned(a);
    r.append(b);
    r.append(c);
    r.append(d);
    r
}

/// `a` to `f` in sequence.
pub fn concat6(a: &str, b: &str, c: &str, d: &str, e: &str, f: &str) -> (r: String)
    ensures
        r@ == a@ + b@ + c@ + d@ + e@ + f@,
{
    let mut r = owned(a);
    r.append(b);
    r.append(c);
    r.append(d);
    r.append(e);
    r.append(f);
    r
}

/// `a` to `e` in sequence.
pub fn concat5(a: &str, b: &str, c: &str, d: &str, e: &str) -> (r: String)
    ensures
        r@ == a@ + b@ + c@ + d@ + e@,
{
    let mut r = owned(a);
    r.append(b);
    r.append(c);
    r.append(d);
    r.append(e);
    r
}

/// `a` to `g` in sequence.
pub fn concat7(a: &str, b: &str, c: &str, d: &str, e: &str, f: &str, g: &str) -> (r: String)
    ensures
        r@ == a@ + b@ + c@ + d@ + e@ + f@ + g@,
{
    let mut r = owned(a);
    r.append(b);
    r.append(c);
    r.append(d);
    r.append(e);
    r.append(f);
    r.append(g);
    r
}

/// Whether `s` begins with `p`.
pub open spec fn starts_with(s: Seq<char>, p: Seq<char>) -> bool {
    p.len() <= s.len() && s.subrange(0, p.len() as int) == p
}

/// Whether `s` ends with `p`.
pub open spec fn ends_with(s: Seq<char>, p: Seq<char>) -> bool {
    p.len() <= s.len() && s.subrange(s.len() - p.len(), s.len() as int) == p
}

/// Whether `s` begins with `p`.
pub fn has_prefix(s: &Vec<char>, p: &Vec<char>) -> (r: bool)
    ensures
        r == starts_with(s@, p@),
{
    if p.len() > s.len() {
        return false;
    }
    let mut i: usize = 0;
    while i < p.len()
        invariant
            p.len() <= s.len(),
            i <= p.len(),
            forall|j: int| 0 <= j < i ==> s@[j] == p@[j],
        decreases p.len() - i,
    {
        if s[i] != p[i] {
            assert(s@.subrange(0, p.len() as int)[i as int] != p@[i as int]);
            return false;
        }
        i = i + 1;
    }
    assert(s@.subrange(0, p.len() as int) =~= p@);
    true
}

/// Whether `s` ends with `p`.
pub fn has_suffix(s: &Vec<char>, p: &Vec<char>) -> (r: bool)
    ensures
        r == ends_with(s@, p@),
{
    if p.len() > s.len() {
        return false;
    }
    let off = s.len() - p.len();
    let mut i: usize = 0;
    while i < p.len()
        invariant
            p.len() <= s.len(),
            off == s.len() - p.len(),
            i <= p.len(),
            forall|j: int| 0 <= j < i ==> s@[off + j] == p@[j],
        decreases p.len() - i,
    {
        if s[off + i] != p[i] {
            assert(s@.subrange(off as int, s.len() as int)[i as int] != p@[i as int]);
            return false;
        }
        i = i + 1;
    }
    assert(s@.subrange(off as int, s.len() as int) =~= p@);
    true
}

/// Whether `c` has the Unicode `White_Space` property, as `char::is_whitespace` tests.
pub open spec fn is_unicode_whitespace(c: char) -> bool {
    let u = c as u32;
    ||| 0x09 <= u <= 0x0d
    ||| u == 0x20 || u == 0x85 || u == 0xa0 || u == 0x1680
    ||| 0x2000 <= u <= 0x200a
    ||| u == 0x2028 || u == 0x2029 || u == 0x202f || u == 0x205f || u == 0x3000
}

/// Whether `c` is white space: the Unicode `White_Space` property, which is
/// what `char::is_whitespace` tests.
pub fn char_is_whitespace(c: char) -> (r: bool)
    ensures
        r == is_unicode_whitespace(c),
{
    let u = c as u32;
    (0x09 <= u && u <= 0x0d) || u == 0x20 || u == 0x85 || u == 0xa0 || u == 0x1680 || (0x2000 <= u
        && u <= 0x200a) || u == 0x2028 || u == 0x2029 || u == 0x202f || u == 0x205f || u == 0x3000
}

/// The start of `s` without its leading white space: the first position
/// at or after `from` that holds no white space, or the length.
pub open spec fn trim_start_index(s: Seq<char>, from: int) -> int
    decreases s.len() - from,
{
    if from < 0 || from >= s.len() {
        s.len() as int
    } else if is_unicode_whitespace(s[from]) {
        trim_start_index(s, from + 1)
    } else {
        from
    }
}

/// The end of `s[..to]` without its trailing white space.
pub open spec fn trim_end_index(s: Seq<char>, to: int) -> int
    decreases to,
{
    if to <= 0 || to > s.len() {
        0
    } else if is_unicode_whitespace(s[to - 1]) {
        trim_end_index(s, to - 1)
    } else {
        to
    }
}

/// `s` without leading and trailing white space, as `str::trim` gives it.
pub open spec fn trim_text(s: Seq<char>) -> Seq<char> {
    let a = trim_start_index(s, 0);
    let b = trim_end_index(s, s.len() as int);
    if a < b {
        s.subrange(a, b)
    } else {
        seq![]
    }
}

/// `s` without leading and trailing white space.
pub fn trim(s: &str) -> (r: String)
    ensures
        r@ == trim_text(s@),
{
    let v = chars_of(s);
    let n = v.len();
    let mut a: usize = 0;
    while a < n && char_is_whitespace(v[a])
        invariant
            n == v@.len(),
            a <= n,
            trim_start_index(v@, 0) == trim_start_index(v@, a as int),
        decreases n - a,
    {
        a = a + 1;
    }
    let mut b: usize = n;
    while b > 0 && char_is_whitespace(v[b - 1])
        invariant
            n == v@.len(),
            b <= n,
            trim_end_index(v@, n as int) == trim_end_index(v@, b as int),
        decreases b,
    {
        b = b - 1;
    }
    let mut out: Vec<char> = Vec::new();
    if a < b {
        let mut k: usize = a;
        while k < b
            invariant
                n == v@.len(),
                a <= k <= b <= n,
                out@ == v@.subrange(a as int, k as int),
            decreases b - k,
        {
            out.push(v[k]);
            k = k + 1;
            assert(out@ =~= v@.subrange(a as int, k as int));
        }
    }
    string_of(&out)
}

/// Whether `p` occurs in `s` at position `i`.
pub open spec fn occurs_at(s: Seq<char>, p: Seq<char>, i: int) -> bool {
    0 <= i && i + p.len() <= s.len() && s.subrange(i, i + p.len()) == p
}

/// The first position at or after `from` where `p` occurs in `s`, or `-1`.
pub open spec fn first_occurrence(s: Seq<char>, p: Seq<char>, from: int) -> int
    decreases s.len() + 1 - from,
{
    if from < 0 || from + p.len() > s.len() {
        -1
    } else if occurs_at(s, p, from) {
        from
    } else {
        first_occurrence(s, p, from + 1)
    }
}

/// `first_occurrence` is `-1` exactly where `p` does not occur at or after
/// `from`, and otherwise the least such position.
pub proof fn lemma_first_occurrence(s: Seq<char>, p: Seq<char>, from: int)
    requires
        0 <= from,
    ensures
        first_occurrence(s, p, from) == -1 <==> forall|i: int| from <= i ==> !#[trigger] occurs_at(s, p, i),
        first_occurrence(s, p, from) != -1 ==> {
            &&& from <= first_occurrence(s, p, from)
            &&& occurs_at(s, p, first_occurrence(s, p, from))
            &&& forall|i: int| from <= i < first_occurrence(s, p, from) ==> !#[trigger] occurs_at(s, p, i)
        },
    decreases s.len() + 1 - from,
{
    if from + p.len() <= s.len() && !occurs_at(s, p, from) {
        lemma_first_occurrence(s, p, from + 1);
    }
}

/// Whether `p` occurs in `s`.
pub open spec fn contains_text(s: Seq<char>, p: Seq<char>) -> bool {
    exists|i: int| occurs_at(s, p, i)
}

/// Whether `p` occurs in `s` at `at`.
fn matches_at(s: &Vec<char>, p: &Vec<char>, at: usize) -> (r: bool)
    requires
        at + p@.len() <= s@.len(),
    ensures
        r == occurs_at(s@, p@, at as int),
{
    let sl = s.len();
    let mut i: usize = 0;
    while i < p.len()
        invariant
            sl == s@.len(),
            at + p@.len() <= s@.len(),
            i <= p.len(),
            forall|j: int| 0 <= j < i ==> s@[at + j] == p@[j],
        decreases p.len() - i,
    {
        if s[at + i] != p[i] {
            assert(s@.subrange(at as int, at + p@.len())[i as int] != p@[i as int]);
            return false;
        }
        i = i + 1;
    }
    assert(s@.subrange(at as int, at + p@.len()) =~= p@);
    true
}

/// The first position where `p` occurs in `s`.
pub fn find_first(s: &Vec<char>, p: &Vec<char>) -> (r: Option<usize>)
    ensures
        match r {
            Some(i) => first_occurrence(s@, p@, 0) == i,
            None => first_occurrence(s@, p@, 0) == -1,
        },
{
    if p.len() > s.len() {
        return None;
    }
    let last = s.len() - p.len();
    let mut i: usize = 0;
    while i < last
        invariant
            last + p@.len() == s@.len(),
            i <= last,
            first_occurrence(s@, p@, 0) == first_occurrence(s@, p@, i as int),
        decreases last - i,
    {
        if matches_at(s, p, i) {
            return Some(i);
        }
        i = i + 1;
    }
    if matches_at(s, p, last) {
        Some(last)
    } else {
        assert(first_occurrence(s@, p@, last + 1) == -1);
        None
    }
}

/// `s` with the first occurrence of `p` replaced by `r`.
pub open spec fn replace_first_text(s: Seq<char>, p: Seq<char>, r: Seq<char>) -> Seq<char> {
    let i = first_occurrence(s, p, 0);
    s.subrange(0, i) + r + s.subrange(i + p.len(), s.len() as int)
}

/// Replacing the first occurrence of `p` puts `r` where it stood, keeps
/// everything before it, and leaves the rest after `r`; the length changes
/// by the difference of the two lengths.
pub proof fn lemma_replace_first_places_replacement(s: Seq<char>, p: Seq<char>, r: Seq<char>)
    requires
        contains_text(s, p),
    ensures
        occurs_at(replace_first_text(s, p, r), r, first_occurrence(s, p, 0)),
        replace_first_text(s, p, r).subrange(0, first_occurrence(s, p, 0)) == s.subrange(0, first_occurrence(s, p, 0)),
        replace_first_text(s, p, r).len() == s.len() - p.len() + r.len(),
        contains_text(replace_first_text(s, p, r), r),
{
    lemma_first_occurrence(s, p, 0);
    let i = first_occurrence(s, p, 0);
    let w = choose|w: int| occurs_at(s, p, w);
    assert(occurs_at(s, p, w));
    assert(i != -1);
    let t = replace_first_text(s, p, r);
    assert(t.subrange(i, i + r.len()) =~= r);
    assert(t.subrange(0, i) =~= s.subrange(0, i));
    assert(occurs_at(t, r, i));
}

/// Replaces the first occurrence of `p` in `s` by `r`, as
/// `s.replacen(p, r, 1)` does; `None` where `p` does not occur.
pub fn replace_first(s: &str, p: &str, r: &str) -> (out: Option<String>)
    ensures
        match out {
            Some(t) => contains_text(s@, p@) && t@ == replace_first_text(s@, p@, r@),
            None => !contains_text(s@, p@),
        },
{
    let sv = chars_of(s);
    let pv = chars_of(p);
    proof {
        lemma_first_occurrence(s@, p@, 0);
    }
    let sl = sv.len();
    match find_first(&sv, &pv) {
        None => None,
        Some(i) => {
            let mut out: Vec<char> = Vec::new();
            let mut j: usize = 0;
            while j < i
                invariant
                    i + pv@.len() <= sv@.len(),
                    j <= i,
                    out@ == sv@.subrange(0, j as int),
                decreases i - j,
            {
                out.push(sv[j]);
                j = j + 1;
                assert(out@ =~= sv@.subrange(0, j as int));
            }
            let rv = chars_of(r);
            let mut k: usize = 0;
            while k < rv.len()
                invariant
                    k <= rv@.len(),
                    out@ == sv@.subrange(0, i as int) + rv@.subrange(0, k as int),
                decreases rv.len() - k,
            {
                out.push(rv[k]);
                k = k + 1;
                assert(out@ =~= sv@.subrange(0, i as int) + rv@.subrange(0, k as int));
            }
            assert(rv@.subrange(0, rv@.len() as int) =~= rv@);
            let mut m: usize = i + pv.len();
            let ghost start = m as int;
            while m < sv.len()
                invariant
                    start == i + pv@.len(),
                    start <= m <= sv@.len(),
                    out@ == sv@.subrange(0, i as int) + rv@ + sv@.subrange(start, m as int),
                decreases sv.len() - m,
            {
                out.push(sv[m]);
                m = m + 1;
                assert(out@ =~= sv@.subrange(0, i as int) + rv@ + sv@.subrange(start, m as int));
            }
            Some(string_of(&out))
        },
    }
}

/// Whether `a` sorts strictly before `b`, comparing characters by code
/// point (as `str` ordering does on their UTF-8 bytes).
pub open spec fn text_lt(a: Seq<char>, b: Seq<char>) -> bool
    decreases a.len(),
{
    if a.len() == 0 {
        b.len() > 0
    } else if b.len() == 0 {
        false
    } else if (a[0] as u32) < (b[0] as u32) {
        true
    } else if a[0] == b[0] {
        text_lt(a.drop_first(), b.drop_first())
    } else {
        false
    }
}

/// Whether `a` sorts strictly before `b`.
pub fn str_lt(a: &str, b: &str) -> (r: bool)
    ensures
        r == text_lt(a@, b@),
{
    let av = chars_of(a);
    let bv = chars_of(b);
    assert(av@.subrange(0, av@.len() as int) =~= av@);
    assert(bv@.subrange(0, bv@.len() as int) =~= bv@);
    let mut i: usize = 0;
    while i < av.len() && i < bv.len()
        invariant
            i <= av@.len(),
            i <= bv@.len(),
            av@.subrange(0, i as int) == bv@.subrange(0, i as int),
            text_lt(a@, b@) == text_lt(av@.subrange(i as int, av@.len() as int), bv@.subrange(i as int, bv@.len() as int)),
        decreases av.len() - i,
    {
        let x = av[i];
        let y = bv[i];
        proof {
            let ra = av@.subrange(i as int, av@.len() as int);
            let rb = bv@.subrange(i as int, bv@.len() as int);
            assert(ra[0] == x && rb[0] == y);
            assert(ra.drop_first() =~= av@.subrange(i + 1, av@.len() as int));
            assert(rb.drop_first() =~= bv@.subrange(i + 1, bv@.len() as int));
        }
        if (x as u32) < (y as u32) {
            return true;
        }
        if x != y {
            return false;
        }
        i = i + 1;
        assert(av@.subrange(0, i as int) =~= bv@.subrange(0, i as int));
    }
    i < bv.len() && i >= av.len()
}

/// No text sorts before itself.
pub proof fn lemma_text_lt_irreflexive(a: Seq<char>)
    ensures
        !text_lt(a, a),
    decreases a.len(),
{
    if a.len() > 0 {
        lemma_text_lt_irreflexive(a.drop_first());
    }
}

/// Of two different texts, one sorts before the other, and never both.
pub proof fn lemma_text_lt_total(a: Seq<char>, b: Seq<char>)
    ensures
        a != b ==> (text_lt(a, b) || text_lt(b, a)),
        !(text_lt(a, b) && text_lt(b, a)),
    decreases a.len(),
{
    if a.len() > 0 && b.len() > 0 {
        lemma_text_lt_total(a.drop_first(), b.drop_first());
        if a[0] == b[0] && a != b {
            if a.drop_first() == b.drop_first() {
                assert(a =~= seq![a[0]] + a.drop_first());
                assert(b =~= seq![b[0]] + b.drop_first());
            }
        }
        if a[0] != b[0] {
            vstd::utf8::char_u32_cast(a[0], a[0] as u32);
            vstd::utf8::char_u32_cast(b[0], b[0] as u32);
        }
    } else if a.len() == 0 && b.len() == 0 {
        assert(a =~= b);
    }
}

/// Sorting before is transitive.
pub proof fn lemma_text_lt_transitive(a: Seq<char>, b: Seq<char>, c: Seq<char>)
    requires
        text_lt(a, b),
        text_lt(b, c),
    ensures
        text_lt(a, c),
    decreases a.len(),
{
    if a.len() > 0 && b.len() > 0 && c.len() > 0 && a[0] == b[0] && b[0] == c[0] {
        lemma_text_lt_transitive(a.drop_first(), b.drop_first(), c.drop_first());
    }
}

/// Whether the texts of `s` are in strictly increasing order.
pub open spec fn strictly_sorted(s: Seq<Seq<char>>) -> bool {
    forall|i: int, j: int| 0 <= i < j < s.len() ==> text_lt(#[trigger] s[i], #[trigger] s[j])
}

/// `s` (strictly sorted) with `x` put in its place, unless it is there.
pub open spec fn insert_sorted(s: Seq<Seq<char>>, x: Seq<char>) -> Seq<Seq<char>>
    decreases s.len(),
{
    if s.len() == 0 {
        seq![x]
    } else if text_lt(s[0], x) {
        seq![s[0]] + insert_sorted(s.drop_first(), x)
    } else if s[0] == x {
        s
    } else {
        seq![x] + s
    }
}

/// The distinct texts of `s`, sorted: each text of `s` once, in increasing
/// order (as a sorted set of them iterates).
pub open spec fn sorted_distinct(s: Seq<Seq<char>>) -> Seq<Seq<char>>
    decreases s.len(),
{
    if s.len() == 0 {
        seq![]
    } else {
        insert_sorted(sorted_distinct(s.drop_last()), s.last())
    }
}

proof fn lemma_insert_sorted(s: Seq<Seq<char>>, x: Seq<char>)
    requires
        strictly_sorted(s),
    ensures
        strictly_sorted(insert_sorted(s, x)),
        forall|y: Seq<char>| #[trigger] insert_sorted(s, x).contains(y) <==> (s.contains(y) || y == x),
    decreases s.len(),
{
    let r = insert_sorted(s, x);
    if s.len() == 0 {
        assert(forall|y: Seq<char>| r.contains(y) <==> y == x) by {
            assert forall|y: Seq<char>| r.contains(y) implies y == x by {
                let k = choose|k: int| 0 <= k < r.len() && r[k] == y;
            }
            assert(r[0] == x);
        }
    } else if text_lt(s[0], x) {
        let t = s.drop_first();
        assert(strictly_sorted(t)) by {
            assert forall|i: int, j: int| 0 <= i < j < t.len() implies text_lt(#[trigger] t[i], #[trigger] t[j]) by {
                assert(t[i] == s[i + 1] && t[j] == s[j + 1]);
            }
        }
        lemma_insert_sorted(t, x);
        let it = insert_sorted(t, x);
        assert(r == seq![s[0]] + it);
        assert forall|y: Seq<char>| r.contains(y) <==> (s.contains(y) || y == x) by {
            if r.contains(y) {
                let k = choose|k: int| 0 <= k < r.len() && r[k] == y;
                if k > 0 {
                    assert(it[k - 1] == y);
                    assert(it.contains(y));
                    if t.contains(y) {
                        let m = choose|m: int| 0 <= m < t.len() && t[m] == y;
                        assert(s[m + 1] == y);
                    }
                } else {
                    assert(s[0] == y);
                }
            }
            if s.contains(y) {
                let m = choose|m: int| 0 <= m < s.len() && s[m] == y;
                if m == 0 {
                    assert(r[0] == y);
                } else {
                    assert(t[m - 1] == y);
                    assert(t.contains(y));
                    assert(it.contains(y));
                    let k = choose|k: int| 0 <= k < it.len() && it[k] == y;
                    assert(r[k + 1] == y);
                }
            }
            if y == x {
                assert(it.contains(y));
                let k = choose|k: int| 0 <= k < it.len() && it[k] == y;
                assert(r[k + 1] == y);
            }
        }
        assert forall|i: int, j: int| 0 <= i < j < r.len() implies text_lt(#[trigger] r[i], #[trigger] r[j]) by {
            if i == 0 {
                assert(r[j] == it[j - 1]);
                assert(it.contains(it[j - 1]));
                if it[j - 1] == x {
                } else {
                    assert(t.contains(it[j - 1]));
                    let m = choose|m: int| 0 <= m < t.len() && t[m] == it[j - 1];
                    assert(s[m + 1] == t[m]);
                    assert(text_lt(s[0], s[m + 1]));
                }
            } else {
                assert(r[i] == it[i - 1] && r[j] == it[j - 1]);
            }
        }
    } else if s[0] == x {
        assert(s.contains(x)) by {
            assert(s[0] == x);
        }
    } else {
        lemma_text_lt_total(s[0], x);
        assert(r == seq![x] + s);
        assert forall|y: Seq<char>| r.contains(y) <==> (s.contains(y) || y == x) by {
            if r.contains(y) {
                let k = choose|k: int| 0 <= k < r.len() && r[k] == y;
                if k > 0 {
                    assert(s[k - 1] == y);
                }
            }
            if s.contains(y) {
                let m = choose|m: int| 0 <= m < s.len() && s[m] == y;
                assert(r[m + 1] == y);
            }
            if y == x {
                assert(r[0] == y);
            }
        }
        assert forall|i: int, j: int| 0 <= i < j < r.len() implies text_lt(#[trigger] r[i], #[trigger] r[j]) by {
            if i == 0 {
                assert(r[j] == s[j - 1]);
                if j - 1 > 0 {
                    lemma_text_lt_transitive(x, s[0], s[j - 1]);
                }
            } else {
                assert(r[i] == s[i - 1] && r[j] == s[j - 1]);
            }
        }
    }
}

/// The sorted distinct texts of `s` are strictly increasing and are exactly
/// the texts of `s`.
pub proof fn lemma_sorted_distinct(s: Seq<Seq<char>>)
    ensures
        strictly_sorted(sorted_distinct(s)),
        forall|y: Seq<char>| #[trigger] sorted_distinct(s).contains(y) <==> s.contains(y),
    decreases s.len(),
{
    if s.len() > 0 {
        let p = s.drop_last();
        lemma_sorted_distinct(p);
        lemma_insert_sorted(sorted_distinct(p), s.last());
        assert forall|y: Seq<char>| sorted_distinct(s).contains(y) <==> s.contains(y) by {
            if p.contains(y) {
                let m = choose|m: int| 0 <= m < p.len() && p[m] == y;
                assert(s[m] == y);
            }
            if s.contains(y) {
                let m = choose|m: int| 0 <= m < s.len() && s[m] == y;
                if m < s.len() - 1 {
                    assert(p[m] == y);
                }
            }
            if y == s.last() {
                assert(s[s.len() - 1] == y);
            }
        }
    } else {
        assert forall|y: Seq<char>| sorted_distinct(s).contains(y) <==> s.contains(y) by {
            if sorted_distinct(s).contains(y) {
                let k = choose|k: int| 0 <= k < sorted_distinct(s).len() && sorted_distinct(s)[k] == y;
            }
        }
    }
}

/// The texts of a list of strings.
pub open spec fn string_views(v: Seq<String>) -> Seq<Seq<char>> {
    v.map_values(|s: String| s@)
}

proof fn lemma_insert_sorted_prefix(s: Seq<Seq<char>>, x: Seq<char>, i: int)
    requires
        0 <= i <= s.len(),
        forall|j: int| 0 <= j < i ==> text_lt(#[trigger] s[j], x),
    ensures
        insert_sorted(s, x) == s.take(i) + insert_sorted(s.skip(i), x),
    decreases i,
{
    if i == 0 {
        assert(s.take(0) + s.skip(0) =~= s);
        assert(s.skip(0) =~= s);
        assert(s.take(0) + insert_sorted(s, x) =~= insert_sorted(s, x));
    } else {
        let t = s.drop_first();
        lemma_insert_sorted_prefix(t, x, i - 1);
        assert(t.skip(i - 1) =~= s.skip(i));
        assert(seq![s[0]] + t.take(i - 1) =~= s.take(i));
        assert(insert_sorted(s, x) =~= seq![s[0]] + insert_sorted(t, x));
        assert(seq![s[0]] + (t.take(i - 1) + insert_sorted(t.skip(i - 1), x)) =~= s.take(i) + insert_sorted(s.skip(i), x));
    }
}

/// Puts `x` into the strictly sorted list `out`, unless it is there.
fn insert_sorted_string(out: &mut Vec<String>, x: String)
    ensures
        string_views(final(out)@) == insert_sorted(string_views(old(out)@), x@),
{
    let ghost sv = string_views(out@);
    let mut i: usize = 0;
    while i < out.len() && str_lt(out[i].as_str(), x.as_str())
        invariant
            i <= out.len(),
            sv == string_views(out@),
            forall|j: int| 0 <= j < i ==> text_lt(#[trigger] sv[j], x@),
        decreases out.len() - i,
    {
        i = i + 1;
    }
    proof {
        lemma_insert_sorted_prefix(sv, x@, i as int);
    }
    if i < out.len() && out[i] == x {
        assert(sv.skip(i as int)[0] == x@);
        assert(insert_sorted(sv.skip(i as int), x@) == sv.skip(i as int));
        assert(sv.take(i as int) + sv.skip(i as int) =~= sv);
    } else {
        let ghost xv = x@;
        out.insert(i, x);
        proof {
            if (i as int) < sv.len() {
                assert(sv.skip(i as int)[0] == sv[i as int]);
                lemma_text_lt_total(sv[i as int], xv);
                assert(insert_sorted(sv.skip(i as int), xv) == seq![xv] + sv.skip(i as int));
            } else {
                assert(sv.skip(i as int) =~= Seq::<Seq<char>>::empty());
            }
            assert(string_views(out@) =~= sv.take(i as int) + insert_sorted(sv.skip(i as int), xv));
        }
    }
}

/// The distinct strings of `v`, sorted by their characters.
pub fn sort_distinct(v: &Vec<String>) -> (r: Vec<String>)
    ensures
        string_views(r@) == sorted_distinct(string_views(v@)),
{
    let mut out: Vec<String> = Vec::new();
    let mut i: usize = 0;
    while i < v.len()
        invariant
            i <= v.len(),
            string_views(out@) == sorted_distinct(string_views(v@.take(i as int))),
        decreases v.len() - i,
    {
        proof {
            assert(string_views(v@.take(i + 1)).drop_last() =~= string_views(v@.take(i as int)));
            assert(string_views(v@.take(i + 1)).last() == v@[i as int]@);
        }
        insert_sorted_string(&mut out, v[i].clone());
        i = i + 1;
    }
    assert(v@.take(v@.len() as int) =~= v@);
    out
}

/// The character of decimal digit `d`.
pub open spec fn digit_char(d: nat) -> char {
    ((d + 48) as u32) as char
}

/// The decimal digits of `n`, most significant first, without leading zeros.
pub open spec fn nat_decimal(n: nat) -> Seq<char>
    decreases n,
{
    if n < 10 {
        seq![digit_char(n)]
    } else {
        nat_decimal(n / 10) + seq![digit_char(n % 10)]
    }
}

/// The decimal representation of `i`, with a leading `-` when negative.
pub open spec fn int_decimal(i: int) -> Seq<char> {
    if i < 0 {
        seq!['-'] + nat_decimal((-i) as nat)
    } else {
        nat_decimal(i as nat)
    }
}

fn push_decimal_digits(n: u64, out: &mut Vec<char>)
    ensures
        final(out)@ == old(out)@ + nat_decimal(n as nat),
    decreases n,
{
    if n >= 10 {
        push_decimal_digits(n / 10, out);
    }
    let d: u32 = (n % 10) as u32;
    let c: char = match d {
        0 => '0',
        1 => '1',
        2 => '2',
        3 => '3',
        4 => '4',
        5 => '5',
        6 => '6',
        7 => '7',
        8 => '8',
        _ => '9',
    };
    assert(c == digit_char((n % 10) as nat));
    out.push(c);
}

/// The decimal representation of `i`, as `i.to_string()` gives it.
pub fn i64_decimal(i: i64) -> (r: Vec<char>)
    ensures
        r@ == int_decimal(i as int),
{
    let mut out: Vec<char> = Vec::new();
    if i < 0 {
        out.push('-');
        let mag: u64 = (-(i as i128)) as u64;
        push_decimal_digits(mag, &mut out);
    } else {
        push_decimal_digits(i as u64, &mut out);
    }
    out
}

/// The decimal representation of `n`, as `n.to_string()` gives it.
pub fn u64_decimal(n: u64) -> (r: Vec<char>)
    ensures
        r@ == nat_decimal(n as nat),
{
    let mut out: Vec<char> = Vec::new();
    push_decimal_digits(n, &mut out);
    assert(out@ =~= nat_decimal(n as nat));
    out
}

/// What `format!("{:?}", s)` gives for a string: its `Debug` form.
pub uninterp spec fn str_debug_text(s: Seq<char>) -> Seq<char>;

/// The `Debug` text of a string. Calls `str`'s `Debug`; claims only that
/// the text is the named function of the string.
#[verifier::external_body]
pub(crate) fn str_debug(s: &str) -> (r: String)
    ensures
        r@ == str_debug_text(s@),
{
    format!("{:?}", s)
}

/// A UTF-8 encoding takes at most four bytes per character.
pub proof fn lemma_utf8_len_bound(p: Seq<char>)
    ensures
        vstd::utf8::encode_utf8(p).len() <= 4 * p.len(),
    decreases p.len(),
{
    if p.len() > 0 {
        lemma_utf8_len_bound(p.drop_first());
    }
}

} // verus!
