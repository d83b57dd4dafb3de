//! A JSON value model: what the protocol logic reads of a JSON document.

use vstd::prelude::*;

verus! {

/// A JSON number as carried on the wire.
///
/// Non-negative integers, negative integers and floating-point numbers are
/// kept apart, as the wire decoder keeps them apart. A floating-point number is
/// held by its IEEE-754 bit pattern: no rule of this library computes with it.
#[derive(Clone, Copy, Debug, PartialEq, Eq, Structural)]
pub enum JsonNumber {
    PosInt(u64),
    NegInt(i64),
    FloatBits(u64),
}

impl JsonNumber {
    /// The number as an `i64`, where it is an integer in range, as
    /// `serde_json::Number::as_i64` gives it.
    pub open spec fn as_i64_spec(&self) -> Option<i64> {
        match *self {
            JsonNumber::PosInt(u) => if u <= i64::MAX as u64 { Some(u as i64) } else { None },
            JsonNumber::NegInt(i) => Some(i),
            JsonNumber::FloatBits(_) => None,
        }
    }

    /// The number as an `u64`, where it is a non-negative integer, as
    /// `serde_json::Number::as_u64` gives it.
    pub open spec fn as_u64_spec(&self) -> Option<u64> {
        match *self {
            JsonNumber::PosInt(u) => Some(u),
            _ => None,
        }
    }

    /// The number as an `i64`, where it is an integer in range.
    #[verifier::when_used_as_spec(as_i64_spec)]
    pub fn as_i64(&self) -> (r: Option<i64>)
        ensures
            r == self.as_i64_spec(),
    {
        match self {
            JsonNumber::PosInt(u) => if *u <= i64::MAX as u64 { Some(*u as i64) } else { None },
            JsonNumber::NegInt(i) => Some(*i),
            JsonNumber::FloatBits(_) => None,
        }
    }

    /// The number `i`, as `serde_json::Number::from` makes it: a negative
    /// integer below zero, a non-negative one otherwise.
    pub fn from_i64(i: i64) -> (r: JsonNumber)
        ensures
            i < 0 ==> r == JsonNumber::NegInt(i),
            i >= 0 ==> r == JsonNumber::PosInt(i as u64),
    {
        if i < 0 {
            JsonNumber::NegInt(i)
        } else {
            JsonNumber::PosInt(i as u64)
        }
    }

    /// The non-negative integer `u`.
    pub fn from_u64(u: u64) -> (r: JsonNumber)
        ensures
            r == JsonNumber::PosInt(u),
    {
        JsonNumber::PosInt(u)
    }

    /// The number as an `u64`, where it is a non-negative integer.
    #[verifier::when_used_as_spec(as_u64_spec)]
    pub fn as_u64(&self) -> (r: Option<u64>)
        ensures
            r == self.as_u64_spec(),
    {
        match self {
            JsonNumber::PosInt(u) => Some(*u),
            _ => None,
        }
    }
}

/// A JSON value. Object members are held in the order in which the
/// decoder yields them.
#[derive(Debug, PartialEq, Eq)]
pub enum Json {
    Null,
    Bool(bool),
    Number(JsonNumber),
    String(String),
    Array(Vec<Json>),
    Object(Vec<(String, Json)>),
}

/// Whether `j` is the JSON string `s`.
pub open spec fn is_json_string(j: Json, s: Seq<char>) -> bool {
    match j {
        Json::String(x) => x@ == s,
        _ => false,
    }
}

/// Whether `j` is the JSON array of the strings of `v`, in order.
pub open spec fn is_json_string_array(j: Json, v: Seq<String>) -> bool {
    match j {
        Json::Array(a) => a@.len() == v.len() && forall|i: int|
            0 <= i < a@.len() ==> is_json_string(#[trigger] a@[i], v[i]@),
        _ => false,
    }
}

/// The position of the first member of `entries`, at `from` or after it,
/// whose key is `key`; `-1` where there is none.
pub open spec fn key_index<V>(entries: Seq<(String, V)>, key: Seq<char>, from: int) -> int
    decreases entries.len() - from,
{
    if from < 0 || from >= entries.len() {
        -1
    } else if entries[from].0@ == key {
        from
    } else {
        key_index(entries, key, from + 1)
    }
}

/// The value of the first member of `entries` whose key is `key`.
pub open spec fn lookup<V>(entries: Seq<(String, V)>, key: Seq<char>) -> Option<V> {
    let k = key_index(entries, key, 0);
    if 0 <= k < entries.len() {
        Some(entries[k].1)
    } else {
        None
    }
}

/// `j[key]` of a JSON value: the member named `key` of an object, `None`
/// for any other value.
pub open spec fn member(j: Json, key: Seq<char>) -> Option<Json> {
    match j {
        Json::Object(es) => lookup(es@, key),
        _ => None,
    }
}

/// `key_index` yields `-1` or a position in range, at `from` or after it.
pub proof fn lemma_key_index_range<V>(entries: Seq<(String, V)>, key: Seq<char>, from: int)
    requires
        0 <= from,
    ensures
        key_index(entries, key, from) == -1 || (from <= key_index(entries, key, from) < entries.len()
            && entries[key_index(entries, key, from)].0@ == key),
    decreases entries.len() - from,
{
    if from < entries.len() && entries[from].0@ != key {
        lemma_key_index_range(entries, key, from + 1);
    }
}

/// The position of the first member of `entries` whose key is `key`.
pub fn find_key<V>(entries: &Vec<(String, V)>, key: &String) -> (r: Option<usize>)
    ensures
        match r {
            Some(k) => key_index(entries@, key@, 0) == k && k < entries@.len(),
            None => key_index(entries@, key@, 0) == -1,
        },
{
    let mut i: usize = 0;
    while i < entries.len()
        invariant
            i <= entries.len(),
            key_index(entries@, key@, 0) == key_index(entries@, key@, i as int),
        decreases entries.len() - i,
    {
        if entries[i].0 == *key {
            return Some(i);
        }
        i = i + 1;
    }
    None
}

/// Whether no two members of `entries` share a key, as in a JSON object
/// held in a map.
pub open spec fn keys_distinct<V>(entries: Seq<(String, V)>) -> bool {
    forall|i: int, j: int|
        0 <= i < j < entries.len() ==> #[trigger] entries[i].0@ != #[trigger] entries[j].0@
}

/// `key_index` is the first position at or after `from` whose key is `key`,
/// and `-1` exactly where there is none.
pub proof fn lemma_key_index_first<V>(entries: Seq<(String, V)>, key: Seq<char>, from: int)
    requires
        0 <= from,
    ensures
        key_index(entries, key, from) == -1 <==> forall|i: int|
            from <= i < entries.len() ==> #[trigger] entries[i].0@ != key,
        key_index(entries, key, from) != -1 ==> {
            &&& from <= key_index(entries, key, from) < entries.len()
            &&& entries[key_index(entries, key, from)].0@ == key
            &&& forall|i: int| from <= i < key_index(entries, key, from) ==> #[trigger] entries[i].0@ != key
        },
    decreases entries.len() - from,
{
    if from < entries.len() && entries[from].0@ != key {
        lemma_key_index_first(entries, key, from + 1);
    }
}

/// `lookup(entries, key)` after `key` was set to `value` in `entries`: the
/// member `key` holds `value`, every other member is unchanged.
pub open spec fn inserted<V>(
    before: Seq<(String, V)>,
    after: Seq<(String, V)>,
    key: Seq<char>,
    value: V,
) -> bool {
    &&& lookup(after, key) == Some(value)
    &&& forall|k: Seq<char>| k != key ==> #[trigger] lookup(after, k) == lookup(before, k)
}

/// Looking a key up after a member is appended: the earlier members come first.
pub proof fn lemma_lookup_push<V>(es: Seq<(String, V)>, x: (String, V), k: Seq<char>)
    ensures
        lookup(es.push(x), k) == (if lookup(es, k) is Some {
            lookup(es, k)
        } else if x.0@ == k {
            Some(x.1)
        } else {
            None
        }),
{
    let t = es.push(x);
    lemma_key_index_first(es, k, 0);
    lemma_key_index_first(t, k, 0);
    let a = key_index(t, k, 0);
    let b = key_index(es, k, 0);
    if b != -1 {
        assert(t[b] == es[b]);
        if a != -1 && a < b {
            assert(t[a] == es[a]);
        }
    } else if a != -1 {
        if a < es.len() {
            assert(t[a] == es[a]);
        }
    } else {
        assert(t[es.len() as int] == x);
    }
}

/// The members of an object after `key` is set to `value`: the first member
/// named `key` replaced in place, or a member appended where there is none.
pub open spec fn insert_entry<V>(entries: Seq<(String, V)>, key: String, value: V) -> Seq<(String, V)> {
    let k = key_index(entries, key@, 0);
    if k != -1 {
        entries.update(k, (key, value))
    } else {
        entries.push((key, value))
    }
}

/// Sets the member `key` of an object to `value`: the first member named
/// `key` is replaced in place where there is one, and a member is appended
/// where there is none, as a map insertion does. Distinct keys stay distinct.
pub fn object_insert<V>(entries: &mut Vec<(String, V)>, key: String, value: V)
    ensures
        final(entries)@ == insert_entry(old(entries)@, key, value),
        inserted(old(entries)@, final(entries)@, key@, value),
        keys_distinct(old(entries)@) ==> keys_distinct(final(entries)@),
        final(entries)@.len() == old(entries)@.len() || final(entries)@.len() == old(entries)@.len() + 1,
{
    let ghost before = entries@;
    let ghost k = key;
    let ghost v = value;
    match find_key(entries, &key) {
        Some(i) => {
            entries.set(i, (key, value));
        },
        None => {
            entries.push((key, value));
        },
    }
    proof {
        lemma_insert_entry(before, k, v);
    }
}

/// Setting a member gives it the value and leaves every other member as it
/// was; distinct keys stay distinct.
pub proof fn lemma_insert_entry<V>(before: Seq<(String, V)>, key: String, value: V)
    ensures
        inserted(before, insert_entry(before, key, value), key@, value),
        keys_distinct(before) ==> keys_distinct(insert_entry(before, key, value)),
        insert_entry(before, key, value).len() == before.len() || insert_entry(before, key, value).len()
            == before.len() + 1,
{
    let kv = key@;
    let after = insert_entry(before, key, value);
    lemma_key_index_first(before, kv, 0);
    let i = key_index(before, kv, 0);
    if i != -1 {
        assert forall|j: int| 0 <= j < after.len() implies #[trigger] after[j].0@ == before[j].0@ by {
            if j != i {
                assert(after[j] == before[j]);
            }
        }
        assert forall|k: Seq<char>| #[trigger] key_index(after, k, 0) == key_index(before, k, 0) by {
            lemma_key_index_first(before, k, 0);
            lemma_key_index_first(after, k, 0);
            let a = key_index(after, k, 0);
            let b = key_index(before, k, 0);
            if a != -1 {
                assert(before[a].0@ == after[a].0@);
            }
            if b != -1 {
                assert(after[b].0@ == before[b].0@);
            }
        }
        assert(key_index(after, kv, 0) == i);
        assert forall|k: Seq<char>| k != kv implies #[trigger] lookup(after, k) == lookup(before, k) by {
            assert(key_index(after, k, 0) == key_index(before, k, 0));
            lemma_key_index_first(before, k, 0);
            let b = key_index(before, k, 0);
            if b != -1 {
                assert(b != i);
                assert(after[b] == before[b]);
            }
        }
    } else {
        lemma_key_index_first(after, kv, 0);
        assert(after[before.len() as int].0@ == kv);
        assert(key_index(after, kv, 0) == before.len());
        assert forall|k: Seq<char>| k != kv implies #[trigger] lookup(after, k) == lookup(before, k) by {
            lemma_key_index_first(before, k, 0);
            lemma_key_index_first(after, k, 0);
            let a = key_index(after, k, 0);
            let b = key_index(before, k, 0);
            if b != -1 {
                assert(after[b] == before[b]);
                if a != -1 && a < b {
                    assert(after[a] == before[a]);
                }
            } else if a != -1 {
                if a < before.len() {
                    assert(after[a] == before[a]);
                }
            }
        }
        if keys_distinct(before) {
            assert forall|x: int, y: int| 0 <= x < y < after.len() implies #[trigger] after[x].0@
                != #[trigger] after[y].0@ by {
                if y < before.len() {
                    assert(after[x] == before[x] && after[y] == before[y]);
                } else {
                    assert(after[x] == before[x]);
                }
            }
        }
    }
}

/// The value of the member named `key`, where `j` is an object that has one.
pub fn get_member<'a>(j: &'a Json, key: &String) -> (r: Option<&'a Json>)
    ensures
        match r {
            Some(v) => member(*j, key@) == Some(*v),
            None => member(*j, key@) is None,
        },
{
    match j {
        Json::Object(es) => {
            match find_key(es, key) {
                Some(k) => Some(&es[k].1),
                None => None,
            }
        },
        _ => None,
    }
}

impl Json {
    /// Equality of JSON values: strings compared by their characters, arrays
    /// and objects member by member in order.
    pub open spec fn same(self, other: Json) -> bool
        decreases self,
    {
        match (self, other) {
            (Json::Null, Json::Null) => true,
            (Json::Bool(a), Json::Bool(b)) => a == b,
            (Json::Number(a), Json::Number(b)) => a == b,
            (Json::String(a), Json::String(b)) => a@ == b@,
            (Json::Array(a), Json::Array(b)) => {
                &&& a@.len() == b@.len()
                &&& forall|i: int| 0 <= i < a@.len() ==> (#[trigger] a@[i]).same(b@[i])
            },
            (Json::Object(a), Json::Object(b)) => {
                &&& a@.len() == b@.len()
                &&& forall|i: int|
                    0 <= i < a@.len() ==> (#[trigger] a@[i]).0@ == b@[i].0@ && a@[i].1.same(b@[i].1)
            },
            _ => false,
        }
    }
}

impl Json {
    /// A copy of this value, member for member.
    pub fn deep_clone(&self) -> (r: Json)
        ensures
            r.same(*self),
        decreases self,
    {
        match self {
            Json::Null => Json::Null,
            Json::Bool(b) => Json::Bool(*b),
            Json::Number(n) => Json::Number(*n),
            Json::String(s) => Json::String(s.clone()),
            Json::Array(v) => {
                let mut out: Vec<Json> = Vec::new();
                let mut i: usize = 0;
                while i < v.len()
                    invariant
                        i <= v.len(),
                        out@.len() == i,
                        forall|j: int| 0 <= j < i ==> (#[trigger] out@[j]).same(v@[j]),
                        *self == Json::Array(*v),
                    decreases v.len() - i,
                {
                    proof {
                        assert(decreases_to!(*self => (*self)->Array_0));
                        assert(decreases_to!(v => v[i as int]));
                    }
                    let c = v[i].deep_clone();
                    out.push(c);
                    i = i + 1;
                }
                Json::Array(out)
            },
            Json::Object(v) => {
                let mut out: Vec<(String, Json)> = Vec::new();
                let mut i: usize = 0;
                while i < v.len()
                    invariant
                        i <= v.len(),
                        out@.len() == i,
                        forall|j: int|
                            0 <= j < i ==> (#[trigger] out@[j]).0@ == v@[j].0@ && out@[j].1.same(v@[j].1),
                        *self == Json::Object(*v),
                    decreases v.len() - i,
                {
                    proof {
                        assert(decreases_to!(*self => (*self)->Object_0));
                        assert(decreases_to!(v => v[i as int]));
                        assert(decreases_to!(v[i as int] => v[i as int].1));
                    }
                    let k = v[i].0.clone();
                    let c = v[i].1.deep_clone();
                    out.push((k, c));
                    i = i + 1;
                }
                Json::Object(out)
            },
        }
    }
}

/// A copy of the members of an object, member for member.
pub fn clone_members(es: &Vec<(String, Json)>) -> (r: Vec<(String, Json)>)
    ensures
        r@.len() == es@.len(),
        forall|i: int| 0 <= i < es@.len() ==> (#[trigger] r@[i]).0@ == es@[i].0@ && r@[i].1.same(es@[i].1),
{
    let mut out: Vec<(String, Json)> = Vec::new();
    let mut i: usize = 0;
    while i < es.len()
        invariant
            i <= es.len(),
            out@.len() == i,
            forall|j: int| 0 <= j < i ==> (#[trigger] out@[j]).0@ == es@[j].0@ && out@[j].1.same(es@[j].1),
        decreases es.len() - i,
    {
        let k = es[i].0.clone();
        let v = es[i].1.deep_clone();
        out.push((k, v));
        i = i + 1;
    }
    out
}

} // verus!
