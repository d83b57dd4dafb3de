//! The first semantic difference between an upstream fixture and its
//! re-serialization: object key order is ignored, a member that holds
//! `null` counts as absent, arrays are ordered, and
//! numbers are compared as the decoder hands them over (the compliance
//! command hands over each number as the bit pattern of its `f64` value,
//! so numbers compare as `f64`). A difference is located by its path and
//! told by its kind; the compliance command renders it as a message.

use vstd::prelude::*;
use crate::json::{Json, key_index, find_key};
use crate::json::keys_distinct;
use crate::json::lemma_key_index_first;
use crate::text::{sorted_distinct, string_views, sort_distinct, strictly_sorted, text_lt, lemma_sorted_distinct};
use crate::text::{lemma_text_lt_irreflexive, lemma_text_lt_transitive};
use super::roundtrip::{listed, unlisted, unlisted_in};

verus! {

/// One step of the path to a difference: an array index or an object key.
#[derive(Debug, Clone, PartialEq, Eq)]
pub enum PathStep {
    Index(usize),
    Key(String),
}

/// What differs where the first difference is found.
#[derive(Debug, Clone, PartialEq, Eq)]
pub enum DiffKind {
    /// Two numbers differ.
    Number,
    /// Two arrays differ in length (upstream's length, then the other's).
    ArrayLength(usize, usize),
    /// The re-serialized object lacks these upstream keys (sorted, once each).
    MissingKeys(Vec<String>),
    /// The re-serialized object has these keys upstream lacks (sorted, once each).
    ExtraKeys(Vec<String>),
    /// The two values differ in type, or are different booleans or strings.
    Mismatch,
}

/// The first difference: where it is, and what differs.
#[derive(Debug, Clone, PartialEq, Eq)]
pub struct Difference {
    pub path: Vec<PathStep>,
    pub kind: DiffKind,
}

/// A path step by its characters.
pub enum StepView {
    Index(int),
    Key(Seq<char>),
}

/// A difference kind by its characters.
pub enum KindView {
    Number,
    ArrayLength(int, int),
    MissingKeys(Seq<Seq<char>>),
    ExtraKeys(Seq<Seq<char>>),
    Mismatch,
}

/// A difference by its characters.
pub struct DiffView {
    pub path: Seq<StepView>,
    pub kind: KindView,
}

impl View for PathStep {
    type V = StepView;

    open spec fn view(&self) -> StepView {
        match self {
            PathStep::Index(i) => StepView::Index(*i as int),
            PathStep::Key(k) => StepView::Key(k@),
        }
    }
}

impl View for DiffKind {
    type V = KindView;

    open spec fn view(&self) -> KindView {
        match self {
            DiffKind::Number => KindView::Number,
            DiffKind::ArrayLength(a, b) => KindView::ArrayLength(*a as int, *b as int),
            DiffKind::MissingKeys(v) => KindView::MissingKeys(string_views(v@)),
            DiffKind::ExtraKeys(v) => KindView::ExtraKeys(string_views(v@)),
            DiffKind::Mismatch => KindView::Mismatch,
        }
    }
}

impl View for Difference {
    type V = DiffView;

    open spec fn view(&self) -> DiffView {
        DiffView { path: self.path@.map_values(|s: PathStep| s@), kind: self.kind@ }
    }
}

/// A difference found at the place itself.
pub open spec fn here(kind: KindView) -> DiffView {
    DiffView { path: seq![], kind }
}

/// A difference found below the step `step`.
pub open spec fn below(step: StepView, d: Option<DiffView>) -> Option<DiffView> {
    match d {
        Some(x) => Some(DiffView { path: seq![step] + x.path, kind: x.kind }),
        None => None,
    }
}

/// The keys of an object's members whose value is not `null`, in order: a
/// member that holds `null` counts as absent.
pub open spec fn live_keys(es: Seq<(String, Json)>) -> Seq<String>
    decreases es.len(),
{
    if es.len() == 0 {
        seq![]
    } else {
        let rest = live_keys(es.drop_last());
        if es.last().1 is Null {
            rest
        } else {
            rest.push(es.last().0)
        }
    }
}

/// The first difference between `a` and `b`, if any.
pub open spec fn semantic_diff_spec(a: Json, b: Json) -> Option<DiffView>
    decreases a, 0int,
{
    match (a, b) {
        (Json::Null, Json::Null) => None,
        (Json::Bool(x), Json::Bool(y)) => if x == y { None } else { Some(here(KindView::Mismatch)) },
        (Json::Number(x), Json::Number(y)) => if x == y { None } else { Some(here(KindView::Number)) },
        (Json::String(x), Json::String(y)) => if x@ == y@ { None } else { Some(here(KindView::Mismatch)) },
        (Json::Array(x), Json::Array(y)) => if x@.len() != y@.len() {
            Some(here(KindView::ArrayLength(x@.len() as int, y@.len() as int)))
        } else {
            proof {
                assert(decreases_to!(a => x));
                assert(decreases_to!(x => x@));
            }
            array_diff(x@, y@, 0)
        },
        (Json::Object(x), Json::Object(y)) => {
            let missing = sorted_distinct(string_views(unlisted(live_keys(x@), live_keys(y@))));
            let extra = sorted_distinct(string_views(unlisted(live_keys(y@), live_keys(x@))));
            if missing.len() > 0 {
                Some(here(KindView::MissingKeys(missing)))
            } else if extra.len() > 0 {
                Some(here(KindView::ExtraKeys(extra)))
            } else {
                proof {
                    assert(decreases_to!(a => x));
                    assert(decreases_to!(x => x@));
                }
                object_diff(x@, y@, sorted_distinct(string_views(live_keys(x@))), 0)
            }
        },
        _ => Some(here(KindView::Mismatch)),
    }
}

/// The first difference between the elements of two arrays of equal
/// length, from position `i` on.
pub open spec fn array_diff(x: Seq<Json>, y: Seq<Json>, i: int) -> Option<DiffView>
    decreases x, x.len() - i,
{
    if i < 0 || i >= x.len() {
        None
    } else {
        proof {
            assert(decreases_to!(x => x[i]));
        }
        match semantic_diff_spec(x[i], y[i]) {
            Some(d) => below(StepView::Index(i), Some(d)),
            None => array_diff(x, y, i + 1),
        }
    }
}

/// The first difference between the members of two objects under the keys
/// `ks[i..]`, in order.
pub open spec fn object_diff(x: Seq<(String, Json)>, y: Seq<(String, Json)>, ks: Seq<Seq<char>>, i: int) -> Option<DiffView>
    decreases x, ks.len() - i,
{
    if i < 0 || i >= ks.len() {
        None
    } else {
        let kx = key_index(x, ks[i], 0);
        let ky = key_index(y, ks[i], 0);
        if 0 <= kx < x.len() && 0 <= ky < y.len() {
            proof {
                assert(decreases_to!(x => x[kx]));
                assert(decreases_to!(x[kx] => x[kx].1));
            }
            match semantic_diff_spec(x[kx].1, y[ky].1) {
                Some(d) => below(StepView::Key(ks[i]), Some(d)),
                None => object_diff(x, y, ks, i + 1),
            }
        } else {
            object_diff(x, y, ks, i + 1)
        }
    }
}

proof fn lemma_unlisted_none(a: Seq<String>, b: Seq<String>)
    requires
        forall|i: int| 0 <= i < a.len() ==> listed(b, #[trigger] a[i]@),
    ensures
        unlisted(a, b) == Seq::<String>::empty(),
    decreases a.len(),
{
    if a.len() > 0 {
        let p = a.drop_last();
        assert forall|i: int| 0 <= i < p.len() implies listed(b, #[trigger] p[i]@) by {
            assert(p[i] == a[i]);
        }
        lemma_unlisted_none(p, b);
        assert(listed(b, a[a.len() - 1]@));
    }
}

proof fn lemma_no_keys_unlisted(a: Seq<String>)
    ensures
        sorted_distinct(string_views(unlisted(a, a))).len() == 0,
{
    assert forall|i: int| 0 <= i < a.len() implies listed(a, #[trigger] a[i]@) by {}
    lemma_unlisted_none(a, a);
    assert(string_views(unlisted(a, a)) =~= Seq::<Seq<char>>::empty());
}

proof fn lemma_array_diff_reflexive(x: Seq<Json>, i: int)
    ensures
        array_diff(x, x, i) is None,
    decreases x, x.len() - i,
{
    if 0 <= i < x.len() {
        assert(decreases_to!(x => x[i]));
        lemma_diff_reflexive(x[i]);
        lemma_array_diff_reflexive(x, i + 1);
    }
}

proof fn lemma_object_diff_reflexive(x: Seq<(String, Json)>, ks: Seq<Seq<char>>, i: int)
    ensures
        object_diff(x, x, ks, i) is None,
    decreases x, ks.len() - i,
{
    if 0 <= i < ks.len() {
        let kx = key_index(x, ks[i], 0);
        if 0 <= kx < x.len() {
            assert(decreases_to!(x => x[kx]));
            assert(decreases_to!(x[kx] => x[kx].1));
            lemma_diff_reflexive(x[kx].1);
        }
        lemma_object_diff_reflexive(x, ks, i + 1);
    }
}

/// A value has no semantic difference from itself.
pub proof fn lemma_diff_reflexive(a: Json)
    ensures
        semantic_diff_spec(a, a) is None,
    decreases a, 0int,
{
    match a {
        Json::Array(x) => {
            assert(decreases_to!(a => x));
            assert(decreases_to!(x => x@));
            lemma_array_diff_reflexive(x@, 0);
        },
        Json::Object(x) => {
            assert(decreases_to!(a => x));
            assert(decreases_to!(x => x@));
            lemma_no_keys_unlisted(live_keys(x@));
            lemma_object_diff_reflexive(x@, sorted_distinct(string_views(live_keys(x@))), 0);
        },
        _ => {},
    }
}

/// Whether two objects' member lists hold the same members, each key once:
/// the same object written in another order.
pub open spec fn same_members(x: Seq<(String, Json)>, x2: Seq<(String, Json)>) -> bool {
    &&& keys_distinct(x)
    &&& keys_distinct(x2)
    &&& forall|e: (String, Json)| x.contains(e) <==> x2.contains(e)
}

proof fn lemma_live_keys_members(es: Seq<(String, Json)>, t: Seq<char>)
    ensures
        string_views(live_keys(es)).contains(t) <==> exists|i: int|
            0 <= i < es.len() && #[trigger] es[i].0@ == t && !(es[i].1 is Null),
    decreases es.len(),
{
    if es.len() > 0 {
        let p = es.drop_last();
        lemma_live_keys_members(p, t);
        let lp = live_keys(p);
        let l = live_keys(es);
        if string_views(l).contains(t) {
            let k = choose|k: int| 0 <= k < string_views(l).len() && string_views(l)[k] == t;
            if k < string_views(lp).len() {
                assert(string_views(lp)[k] == t);
                let i = choose|i: int| 0 <= i < p.len() && #[trigger] p[i].0@ == t && !(p[i].1 is Null);
                assert(es[i] == p[i]);
            } else {
                assert(es[es.len() - 1].0@ == t);
            }
        }
        if exists|i: int| 0 <= i < es.len() && #[trigger] es[i].0@ == t && !(es[i].1 is Null) {
            let i = choose|i: int| 0 <= i < es.len() && #[trigger] es[i].0@ == t && !(es[i].1 is Null);
            if i < es.len() - 1 {
                assert(p[i] == es[i]);
                assert(string_views(lp).contains(t));
                let k = choose|k: int| 0 <= k < string_views(lp).len() && string_views(lp)[k] == t;
                assert(string_views(l)[k] == t);
            } else {
                assert(string_views(l)[string_views(l).len() - 1] == t);
            }
        }
    }
}

proof fn lemma_unlisted_members(a: Seq<String>, b: Seq<String>, t: Seq<char>)
    ensures
        string_views(unlisted(a, b)).contains(t) <==> (string_views(a).contains(t)
            && !string_views(b).contains(t)),
    decreases a.len(),
{
    assert(listed(b, t) <==> string_views(b).contains(t)) by {
        if listed(b, t) {
            let i = choose|i: int| 0 <= i < b.len() && b[i]@ == t;
            assert(string_views(b)[i] == t);
        }
        if string_views(b).contains(t) {
            let i = choose|i: int| 0 <= i < string_views(b).len() && string_views(b)[i] == t;
            assert(b[i]@ == t);
        }
    }
    if a.len() > 0 {
        let p = a.drop_last();
        lemma_unlisted_members(p, b, t);
        let u = string_views(unlisted(a, b));
        let up = string_views(unlisted(p, b));
        assert(listed(b, a.last()@) <==> string_views(b).contains(a.last()@)) by {
            if listed(b, a.last()@) {
                let i = choose|i: int| 0 <= i < b.len() && b[i]@ == a.last()@;
                assert(string_views(b)[i] == a.last()@);
            }
            if string_views(b).contains(a.last()@) {
                let i = choose|i: int| 0 <= i < string_views(b).len() && string_views(b)[i] == a.last()@;
                assert(b[i]@ == a.last()@);
            }
        }
        if u.contains(t) {
            let k = choose|k: int| 0 <= k < u.len() && u[k] == t;
            if k < up.len() {
                assert(up[k] == t);
                let m = choose|m: int| 0 <= m < string_views(p).len() && string_views(p)[m] == t;
                assert(string_views(a)[m] == t);
            } else {
                assert(string_views(a)[a.len() - 1] == t);
            }
        }
        if string_views(a).contains(t) && !string_views(b).contains(t) {
            let m = choose|m: int| 0 <= m < string_views(a).len() && string_views(a)[m] == t;
            if m < a.len() - 1 {
                assert(string_views(p)[m] == t);
                let k = choose|k: int| 0 <= k < up.len() && up[k] == t;
                assert(u[k] == t);
            } else {
                assert(u[u.len() - 1] == t);
            }
        }
    }
}

proof fn lemma_sorted_unique(s1: Seq<Seq<char>>, s2: Seq<Seq<char>>)
    requires
        strictly_sorted(s1),
        strictly_sorted(s2),
        forall|t: Seq<char>| s1.contains(t) <==> s2.contains(t),
    ensures
        s1 == s2,
    decreases s1.len(),
{
    if s1.len() == 0 {
        if s2.len() > 0 {
            assert(s2.contains(s2[0]));
        }
        assert(s1 =~= s2);
    } else {
        assert(s1.contains(s1[0]));
        let j = choose|j: int| 0 <= j < s2.len() && s2[j] == s1[0];
        assert(s2.contains(s2[0]));
        let i = choose|i: int| 0 <= i < s1.len() && s1[i] == s2[0];
        if j > 0 {
            assert(text_lt(s2[0], s2[j]));
            if i == 0 {
                lemma_text_lt_irreflexive(s2[0]);
            } else {
                assert(text_lt(s1[0], s1[i]));
                lemma_text_lt_transitive(s1[0], s2[0], s1[0]);
                lemma_text_lt_irreflexive(s1[0]);
            }
        }
        assert(s1[0] == s2[0]);
        let r1 = s1.drop_first();
        let r2 = s2.drop_first();
        assert(strictly_sorted(r1)) by {
            assert forall|a: int, b: int| 0 <= a < b < r1.len() implies text_lt(#[trigger] r1[a], #[trigger] r1[b]) by {
                assert(r1[a] == s1[a + 1] && r1[b] == s1[b + 1]);
            }
        }
        assert(strictly_sorted(r2)) by {
            assert forall|a: int, b: int| 0 <= a < b < r2.len() implies text_lt(#[trigger] r2[a], #[trigger] r2[b]) by {
                assert(r2[a] == s2[a + 1] && r2[b] == s2[b + 1]);
            }
        }
        assert forall|t: Seq<char>| r1.contains(t) <==> r2.contains(t) by {
            if r1.contains(t) {
                let k = choose|k: int| 0 <= k < r1.len() && r1[k] == t;
                assert(s1[k + 1] == t);
                assert(text_lt(s1[0], s1[k + 1]));
                lemma_text_lt_irreflexive(t);
                assert(s2.contains(t));
                let m = choose|m: int| 0 <= m < s2.len() && s2[m] == t;
                assert(m != 0);
                assert(r2[m - 1] == t);
            }
            if r2.contains(t) {
                let k = choose|k: int| 0 <= k < r2.len() && r2[k] == t;
                assert(s2[k + 1] == t);
                assert(text_lt(s2[0], s2[k + 1]));
                lemma_text_lt_irreflexive(t);
                assert(s1.contains(t));
                let m = choose|m: int| 0 <= m < s1.len() && s1[m] == t;
                assert(m != 0);
                assert(r1[m - 1] == t);
            }
        }
        lemma_sorted_unique(r1, r2);
        assert(s1 =~= seq![s1[0]] + r1);
        assert(s2 =~= seq![s2[0]] + r2);
    }
}

proof fn lemma_sorted_distinct_same(a: Seq<Seq<char>>, b: Seq<Seq<char>>)
    requires
        forall|t: Seq<char>| a.contains(t) <==> b.contains(t),
    ensures
        sorted_distinct(a) == sorted_distinct(b),
{
    lemma_sorted_distinct(a);
    lemma_sorted_distinct(b);
    lemma_sorted_unique(sorted_distinct(a), sorted_distinct(b));
}

proof fn lemma_same_live_keys(x: Seq<(String, Json)>, x2: Seq<(String, Json)>, t: Seq<char>)
    requires
        same_members(x, x2),
    ensures
        string_views(live_keys(x)).contains(t) <==> string_views(live_keys(x2)).contains(t),
{
    lemma_live_keys_members(x, t);
    lemma_live_keys_members(x2, t);
    if string_views(live_keys(x)).contains(t) {
        let i = choose|i: int| 0 <= i < x.len() && #[trigger] x[i].0@ == t && !(x[i].1 is Null);
        assert(x.contains(x[i]));
        let j = choose|j: int| 0 <= j < x2.len() && x2[j] == x[i];
        assert(x2[j].0@ == t);
    }
    if string_views(live_keys(x2)).contains(t) {
        let i = choose|i: int| 0 <= i < x2.len() && #[trigger] x2[i].0@ == t && !(x2[i].1 is Null);
        assert(x2.contains(x2[i]));
        let j = choose|j: int| 0 <= j < x.len() && x[j] == x2[i];
        assert(x[j].0@ == t);
    }
}

proof fn lemma_same_member_at(x: Seq<(String, Json)>, x2: Seq<(String, Json)>, k: Seq<char>)
    requires
        same_members(x, x2),
    ensures
        (0 <= key_index(x, k, 0) < x.len()) <==> (0 <= key_index(x2, k, 0) < x2.len()),
        0 <= key_index(x, k, 0) < x.len() ==> x[key_index(x, k, 0)] == x2[key_index(x2, k, 0)],
{
    lemma_key_index_first(x, k, 0);
    lemma_key_index_first(x2, k, 0);
    let i = key_index(x, k, 0);
    let i2 = key_index(x2, k, 0);
    if i != -1 {
        assert(x.contains(x[i]));
        let j = choose|j: int| 0 <= j < x2.len() && x2[j] == x[i];
        assert(x2[j].0@ == k);
        if i2 != j {
            assert(i2 != -1);
            assert(x2[i2].0@ == x2[j].0@);
        }
    }
    if i2 != -1 {
        assert(x2.contains(x2[i2]));
        let j = choose|j: int| 0 <= j < x.len() && x[j] == x2[i2];
        assert(x[j].0@ == k);
    }
}

proof fn lemma_object_diff_order(x: Seq<(String, Json)>, x2: Seq<(String, Json)>, y: Seq<(String, Json)>, ks: Seq<Seq<char>>, i: int)
    requires
        same_members(x, x2),
    ensures
        object_diff(x, y, ks, i) == object_diff(x2, y, ks, i),
        object_diff(y, x, ks, i) == object_diff(y, x2, ks, i),
    decreases ks.len() - i,
{
    if 0 <= i < ks.len() {
        lemma_same_member_at(x, x2, ks[i]);
        lemma_object_diff_order(x, x2, y, ks, i + 1);
    }
}

/// The order in which an object's members are written makes no difference
/// to the diff, on either side: two objects with the same members, each key
/// once, compare alike with every value.
pub proof fn lemma_diff_ignores_member_order(a1: Json, a2: Json, b: Json)
    requires
        a1 is Object,
        a2 is Object,
        same_members(a1->Object_0@, a2->Object_0@),
    ensures
        semantic_diff_spec(a1, b) == semantic_diff_spec(a2, b),
        semantic_diff_spec(b, a1) == semantic_diff_spec(b, a2),
{
    let x = a1->Object_0@;
    let x2 = a2->Object_0@;
    let lx = string_views(live_keys(x));
    let lx2 = string_views(live_keys(x2));
    assert forall|t: Seq<char>| lx.contains(t) <==> lx2.contains(t) by {
        lemma_same_live_keys(x, x2, t);
    }
    lemma_sorted_distinct_same(lx, lx2);
    if let Json::Object(w) = b {
        let y = w@;
        let ly = live_keys(y);
        assert forall|t: Seq<char>| string_views(unlisted(live_keys(x), ly)).contains(t)
            <==> string_views(unlisted(live_keys(x2), ly)).contains(t) by {
            lemma_unlisted_members(live_keys(x), ly, t);
            lemma_unlisted_members(live_keys(x2), ly, t);
        }
        assert forall|t: Seq<char>| string_views(unlisted(ly, live_keys(x))).contains(t)
            <==> string_views(unlisted(ly, live_keys(x2))).contains(t) by {
            lemma_unlisted_members(ly, live_keys(x), t);
            lemma_unlisted_members(ly, live_keys(x2), t);
        }
        lemma_sorted_distinct_same(string_views(unlisted(live_keys(x), ly)), string_views(unlisted(live_keys(x2), ly)));
        lemma_sorted_distinct_same(string_views(unlisted(ly, live_keys(x))), string_views(unlisted(ly, live_keys(x2))));
        lemma_object_diff_order(x, x2, y, sorted_distinct(lx), 0);
        lemma_object_diff_order(x, x2, y, sorted_distinct(string_views(ly)), 0);
    }
}

/// Which kind of JSON value `j` is.
pub open spec fn json_kind(j: Json) -> int {
    match j {
        Json::Null => 0,
        Json::Bool(_) => 1,
        Json::Number(_) => 2,
        Json::String(_) => 3,
        Json::Array(_) => 4,
        Json::Object(_) => 5,
    }
}

/// The difference found at the compared place itself, of kind `kind`.
pub open spec fn at_root(kind: KindView) -> Option<DiffView> {
    Some(DiffView { path: seq![], kind })
}

/// Scalars compare by value: two nulls never differ; two booleans, two
/// numbers or two strings (by their characters) differ exactly when their
/// values do, and then at the place itself (a number difference for
/// numbers, a mismatch otherwise); values of different kinds always differ
/// there, as a mismatch.
pub proof fn lemma_diff_of_scalars(a: Json, b: Json)
    ensures
        (a is Null && b is Null) ==> semantic_diff_spec(a, b) is None,
        (a is Bool && b is Bool) ==> semantic_diff_spec(a, b) == (if a->Bool_0 == b->Bool_0 {
            None
        } else {
            at_root(KindView::Mismatch)
        }),
        (a is Number && b is Number) ==> semantic_diff_spec(a, b) == (if a->Number_0 == b->Number_0 {
            None
        } else {
            at_root(KindView::Number)
        }),
        (a is String && b is String) ==> semantic_diff_spec(a, b) == (if a->String_0@ == b->String_0@ {
            None
        } else {
            at_root(KindView::Mismatch)
        }),
        json_kind(a) != json_kind(b) ==> semantic_diff_spec(a, b) == at_root(KindView::Mismatch),
{
}

proof fn lemma_array_diff_located(x: Seq<Json>, y: Seq<Json>, i: int)
    requires
        0 <= i <= x.len(),
        x.len() == y.len(),
    ensures
        array_diff(x, y, i) is None <==> forall|j: int| i <= j < x.len() ==> (#[trigger] semantic_diff_spec(x[j], y[j])) is None,
        array_diff(x, y, i) matches Some(d) ==> exists|j: int| {
            &&& i <= j < x.len()
            &&& forall|m: int| i <= m < j ==> (#[trigger] semantic_diff_spec(x[m], y[m])) is None
            &&& #[trigger] semantic_diff_spec(x[j], y[j]) matches Some(e) && d == (DiffView {
                path: seq![StepView::Index(j)] + e.path,
                kind: e.kind,
            })
        },
    decreases x.len() - i,
{
    if i < x.len() {
        lemma_array_diff_located(x, y, i + 1);
        match semantic_diff_spec(x[i], y[i]) {
            Some(e) => {
                let d = array_diff(x, y, i)->Some_0;
                assert(d == (DiffView { path: seq![StepView::Index(i)] + e.path, kind: e.kind }));
            },
            None => {
                assert forall|j: int| i <= j < x.len() && (forall|j2: int| i + 1 <= j2 < x.len() ==> (#[trigger] semantic_diff_spec(x[j2], y[j2])) is None)
                    implies (#[trigger] semantic_diff_spec(x[j], y[j])) is None by {
                    if j > i {
                    }
                }
                if array_diff(x, y, i) is Some {
                    let d = array_diff(x, y, i)->Some_0;
                    let j = choose|j: int| {
                        &&& i + 1 <= j < x.len()
                        &&& forall|m: int| i + 1 <= m < j ==> (#[trigger] semantic_diff_spec(x[m], y[m])) is None
                        &&& #[trigger] semantic_diff_spec(x[j], y[j]) matches Some(e) && d == (DiffView {
                            path: seq![StepView::Index(j)] + e.path,
                            kind: e.kind,
                        })
                    };
                    assert forall|m: int| i <= m < j implies (#[trigger] semantic_diff_spec(x[m], y[m])) is None by {
                        if m > i {
                        }
                    }
                }
            },
        }
    }
}

/// Arrays are ordered: arrays of different lengths differ at the place
/// itself, by their lengths; arrays of one length have no difference
/// exactly when no two elements at the same position differ, and otherwise
/// the difference is that of the first such position, located below it.
pub proof fn lemma_diff_of_arrays(a: Json, b: Json)
    requires
        a is Array,
        b is Array,
    ensures
        a->Array_0@.len() != b->Array_0@.len() ==> semantic_diff_spec(a, b) == at_root(
            KindView::ArrayLength(a->Array_0@.len() as int, b->Array_0@.len() as int),
        ),
        a->Array_0@.len() == b->Array_0@.len() ==> (semantic_diff_spec(a, b) is None <==> forall|j: int|
            0 <= j < a->Array_0@.len() ==> (#[trigger] semantic_diff_spec(a->Array_0@[j], b->Array_0@[j])) is None),
        a->Array_0@.len() == b->Array_0@.len() && semantic_diff_spec(a, b) is Some ==> exists|j: int| {
            &&& 0 <= j < a->Array_0@.len()
            &&& forall|m: int| 0 <= m < j ==> (#[trigger] semantic_diff_spec(a->Array_0@[m], b->Array_0@[m])) is None
            &&& #[trigger] semantic_diff_spec(a->Array_0@[j], b->Array_0@[j]) matches Some(e)
                && semantic_diff_spec(a, b) == Some(DiffView { path: seq![StepView::Index(j)] + e.path, kind: e.kind })
        },
{
    let x = a->Array_0@;
    let y = b->Array_0@;
    if x.len() == y.len() {
        lemma_array_diff_located(x, y, 0);
    }
}

/// Whether `es` has a member under the key `k` whose value is not `null`.
pub open spec fn has_live_member(es: Seq<(String, Json)>, k: Seq<char>) -> bool {
    exists|i: int| 0 <= i < es.len() && es[i].0@ == k && !(es[i].1 is Null)
}

proof fn lemma_object_diff_none(x: Seq<(String, Json)>, y: Seq<(String, Json)>, ks: Seq<Seq<char>>, i: int)
    requires
        0 <= i,
        object_diff(x, y, ks, i) is None,
    ensures
        forall|m: int| i <= m < ks.len() && 0 <= key_index(x, ks[m], 0) < x.len() && 0 <= key_index(y, ks[m], 0) < y.len()
            ==> (#[trigger] semantic_diff_spec(x[key_index(x, ks[m], 0)].1, y[key_index(y, ks[m], 0)].1)) is None,
    decreases ks.len() - i,
{
    if i < ks.len() {
        lemma_object_diff_none(x, y, ks, i + 1);
        assert forall|m: int| i <= m < ks.len() && 0 <= key_index(x, ks[m], 0) < x.len() && 0 <= key_index(y, ks[m], 0) < y.len()
            implies (#[trigger] semantic_diff_spec(x[key_index(x, ks[m], 0)].1, y[key_index(y, ks[m], 0)].1)) is None by {
            if m > i {
            }
        }
    }
}

proof fn lemma_live_member_found(es: Seq<(String, Json)>, k: Seq<char>)
    requires
        has_live_member(es, k),
    ensures
        0 <= key_index(es, k, 0) < es.len(),
{
    lemma_key_index_first(es, k, 0);
    let i = choose|i: int| 0 <= i < es.len() && es[i].0@ == k && !(es[i].1 is Null);
    assert(es[i].0@ == k);
}

/// Objects compare as sets of members, a member holding `null` counting as
/// absent: where the upstream object has a member the other lacks, the
/// difference is at the place itself and lists exactly the lacking keys,
/// sorted and once each; where only the other object has members upstream
/// lacks, it lists exactly those; and objects without a difference have the
/// same members, with no difference between the values under each key.
pub proof fn lemma_diff_of_objects(a: Json, b: Json)
    requires
        a is Object,
        b is Object,
    ensures
        (exists|k: Seq<char>| has_live_member(a->Object_0@, k) && !has_live_member(b->Object_0@, k))
            ==> (semantic_diff_spec(a, b) matches Some(d) && (d.path == Seq::<StepView>::empty()
            && (d.kind matches KindView::MissingKeys(ms) && (strictly_sorted(ms) && forall|t: Seq<char>|
            #[trigger] ms.contains(t) <==> (has_live_member(a->Object_0@, t) && !has_live_member(b->Object_0@, t)))))),
        (forall|k: Seq<char>| has_live_member(a->Object_0@, k) ==> has_live_member(b->Object_0@, k))
            && (exists|k: Seq<char>| has_live_member(b->Object_0@, k) && !has_live_member(a->Object_0@, k))
            ==> (semantic_diff_spec(a, b) matches Some(d) && (d.path == Seq::<StepView>::empty()
            && (d.kind matches KindView::ExtraKeys(es) && (strictly_sorted(es) && forall|t: Seq<char>|
            #[trigger] es.contains(t) <==> (has_live_member(b->Object_0@, t) && !has_live_member(a->Object_0@, t)))))),
        semantic_diff_spec(a, b) is None ==> {
            &&& forall|k: Seq<char>| has_live_member(a->Object_0@, k) <==> has_live_member(b->Object_0@, k)
            &&& forall|k: Seq<char>| has_live_member(a->Object_0@, k) ==> (#[trigger] semantic_diff_spec(
                a->Object_0@[key_index(a->Object_0@, k, 0)].1,
                b->Object_0@[key_index(b->Object_0@, k, 0)].1,
            )) is None
        },
{
    let x = a->Object_0@;
    let y = b->Object_0@;
    let lx = live_keys(x);
    let ly = live_keys(y);
    let mu = string_views(unlisted(lx, ly));
    let eu = string_views(unlisted(ly, lx));
    let missing = sorted_distinct(mu);
    let extra = sorted_distinct(eu);
    lemma_sorted_distinct(mu);
    lemma_sorted_distinct(eu);
    assert forall|t: Seq<char>| missing.contains(t) <==> (has_live_member(x, t) && !has_live_member(y, t)) by {
        lemma_unlisted_members(lx, ly, t);
        lemma_live_keys_members(x, t);
        lemma_live_keys_members(y, t);
    }
    assert forall|t: Seq<char>| extra.contains(t) <==> (has_live_member(y, t) && !has_live_member(x, t)) by {
        lemma_unlisted_members(ly, lx, t);
        lemma_live_keys_members(x, t);
        lemma_live_keys_members(y, t);
    }
    if exists|k: Seq<char>| has_live_member(x, k) && !has_live_member(y, k) {
        let k = choose|k: Seq<char>| has_live_member(x, k) && !has_live_member(y, k);
        assert(missing.contains(k));
    }
    if (forall|k: Seq<char>| has_live_member(x, k) ==> has_live_member(y, k))
        && (exists|k: Seq<char>| has_live_member(y, k) && !has_live_member(x, k)) {
        if missing.len() > 0 {
            assert(missing.contains(missing[0]));
        }
        let k = choose|k: Seq<char>| has_live_member(y, k) && !has_live_member(x, k);
        assert(extra.contains(k));
    }
    if semantic_diff_spec(a, b) is None {
        if missing.len() > 0 {
            assert(missing.contains(missing[0]));
        }
        if extra.len() > 0 {
            assert(extra.contains(extra[0]));
        }
        let ks = sorted_distinct(string_views(lx));
        lemma_sorted_distinct(string_views(lx));
        lemma_object_diff_none(x, y, ks, 0);
        assert forall|k: Seq<char>| has_live_member(x, k) implies (#[trigger] semantic_diff_spec(
            x[key_index(x, k, 0)].1,
            y[key_index(y, k, 0)].1,
        )) is None by {
            lemma_live_keys_members(x, k);
            assert(ks.contains(k));
            let m = choose|m: int| 0 <= m < ks.len() && ks[m] == k;
            assert(!extra.contains(k) && !missing.contains(k));
            lemma_live_member_found(x, k);
            lemma_live_member_found(y, k);
        }
        assert forall|k: Seq<char>| has_live_member(x, k) <==> has_live_member(y, k) by {
            assert(!extra.contains(k) && !missing.contains(k));
        }
    }
}

/// The view of an optional difference.
pub open spec fn opt_view(r: Option<Difference>) -> Option<DiffView> {
    match r {
        Some(d) => Some(d@),
        None => None,
    }
}

/// `d` located one step further down, below `step`.
fn prefixed(step: PathStep, d: Difference) -> (r: Difference)
    ensures
        Some(r@) == below(step@, Some(d@)),
{
    let ghost sv = step@;
    let mut path = d.path;
    let ghost old_path = path@;
    path.insert(0, step);
    let r = Difference { path, kind: d.kind };
    assert(r@.path =~= seq![sv] + d@.path);
    r
}

/// A difference found at the place itself.
fn at_here(kind: DiffKind) -> (r: Difference)
    ensures
        r@ == here(kind@),
{
    let r = Difference { path: Vec::new(), kind };
    assert(r@.path =~= seq![]);
    r
}

/// The keys of an object's members whose value is not `null`, in order.
fn member_keys(es: &Vec<(String, Json)>) -> (r: Vec<String>)
    ensures
        r@ == live_keys(es@),
{
    let mut out: Vec<String> = Vec::new();
    let mut i: usize = 0;
    while i < es.len()
        invariant
            i <= es.len(),
            out@ == live_keys(es@.take(i as int)),
        decreases es.len() - i,
    {
        assert(es@.take(i + 1).drop_last() =~= es@.take(i as int));
        assert(es@.take(i + 1).last() == es@[i as int]);
        let live = match &es[i].1 {
            Json::Null => false,
            _ => true,
        };
        if live {
            out.push(es[i].0.clone());
        }
        i = i + 1;
    }
    assert(es@.take(es@.len() as int) =~= es@);
    out
}

/// The first semantic difference between the upstream value `a` and the
/// re-serialized value `b`, if any: booleans, strings and numbers compare
/// by value; arrays must have the same length and are compared element by
/// element; objects must have the same keys, a member that holds `null`
/// counting as absent (the missing upstream keys are reported first, then the
/// extra ones), and are compared member by member in sorted key order;
/// values of different types differ.
pub fn semantic_diff(a: &Json, b: &Json) -> (r: Option<Difference>)
    ensures
        opt_view(r) == semantic_diff_spec(*a, *b),
    decreases *a, 0int,
{
    match (a, b) {
        (Json::Null, Json::Null) => None,
        (Json::Bool(x), Json::Bool(y)) => if *x == *y {
            None
        } else {
            Some(at_here(DiffKind::Mismatch))
        },
        (Json::Number(x), Json::Number(y)) => if *x == *y {
            None
        } else {
            Some(at_here(DiffKind::Number))
        },
        (Json::String(x), Json::String(y)) => if *x == *y {
            None
        } else {
            Some(at_here(DiffKind::Mismatch))
        },
        (Json::Array(x), Json::Array(y)) => {
            if x.len() != y.len() {
                return Some(at_here(DiffKind::ArrayLength(x.len(), y.len())));
            }
            let mut i: usize = 0;
            while i < x.len()
                invariant
                    i <= x.len(),
                    x.len() == y.len(),
                    *a == Json::Array(*x),
                    *b == Json::Array(*y),
                    semantic_diff_spec(*a, *b) == array_diff(x@, y@, i as int),
                decreases x.len() - i,
            {
                proof {
                    assert(decreases_to!(*a => (*a)->Array_0));
                    assert(decreases_to!(x => x[i as int]));
                }
                match semantic_diff(&x[i], &y[i]) {
                    Some(d) => {
                        return Some(prefixed(PathStep::Index(i), d));
                    },
                    None => {},
                }
                i = i + 1;
            }
            None
        },
        (Json::Object(x), Json::Object(y)) => {
            let xk = member_keys(x);
            let yk = member_keys(y);
            let missing = sort_distinct(&unlisted_in(&xk, &yk));
            assert(string_views(missing@).len() == missing@.len());
            if missing.len() > 0 {
                return Some(at_here(DiffKind::MissingKeys(missing)));
            }
            let extra = sort_distinct(&unlisted_in(&yk, &xk));
            assert(string_views(extra@).len() == extra@.len());
            if extra.len() > 0 {
                return Some(at_here(DiffKind::ExtraKeys(extra)));
            }
            let ks = sort_distinct(&xk);
            let ghost kv = string_views(ks@);
            let mut i: usize = 0;
            while i < ks.len()
                invariant
                    i <= ks.len(),
                    kv == string_views(ks@),
                    *a == Json::Object(*x),
                    *b == Json::Object(*y),
                    semantic_diff_spec(*a, *b) == object_diff(x@, y@, kv, i as int),
                decreases ks.len() - i,
            {
                assert(kv[i as int] == ks@[i as int]@);
                let fx = find_key(x, &ks[i]);
                let fy = find_key(y, &ks[i]);
                match (fx, fy) {
                    (Some(kx), Some(ky)) => {
                        proof {
                            assert(decreases_to!(*a => (*a)->Object_0));
                            assert(decreases_to!(x => x[kx as int]));
                            assert(decreases_to!(x[kx as int] => x[kx as int].1));
                        }
                        match semantic_diff(&x[kx].1, &y[ky].1) {
                            Some(d) => {
                                return Some(prefixed(PathStep::Key(ks[i].clone()), d));
                            },
                            None => {},
                        }
                    },
                    _ => {},
                }
                i = i + 1;
            }
            None
        },
        _ => Some(at_here(DiffKind::Mismatch)),
    }
}

} // verus!
