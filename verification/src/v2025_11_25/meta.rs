//! Progress tokens, pagination cursors and the structured `_meta` of this
//! revision: its typed fields, its further members, and how a request's
//! members are merged into a response's.

use vstd::prelude::*;
use crate::json::{Json, JsonNumber, lookup, keys_distinct, inserted, object_insert, insert_entry, lemma_insert_entry, lemma_lookup_push};
use crate::text::owned;

verus! {

/// A progress token.
#[derive(Debug, Clone, PartialEq, Eq)]
pub struct ProgressToken(pub String);

impl ProgressToken {
    /// The token `token`.
    pub fn new(token: &str) -> (r: Self)
        ensures
            r.0@ == token@,
    {
        ProgressToken(owned(token))
    }

    /// The text of the token.
    pub fn as_str(&self) -> (r: &str)
        ensures
            r@ == self.0@,
    {
        self.0.as_str()
    }
}

impl From<String> for ProgressToken {
    fn from(s: String) -> (r: ProgressToken) {
        ProgressToken(s)
    }
}

impl vstd::std_specs::convert::FromSpecImpl<String> for ProgressToken {
    open spec fn obeys_from_spec() -> bool {
        true
    }

    open spec fn from_spec(s: String) -> ProgressToken {
        ProgressToken(s)
    }
}

impl<'a> From<&'a str> for ProgressToken {
    fn from(s: &'a str) -> (r: ProgressToken)
        ensures
            r.0@ == s@,
    {
        ProgressToken(owned(s))
    }
}

impl<'a> vstd::std_specs::convert::FromSpecImpl<&'a str> for ProgressToken {
    open spec fn obeys_from_spec() -> bool {
        false
    }

    open spec fn from_spec(s: &'a str) -> ProgressToken {
        ProgressToken(arbitrary())
    }
}

/// An opaque pagination cursor.
#[derive(Debug, Clone, PartialEq, Eq)]
pub struct Cursor(pub String);

impl Cursor {
    /// The cursor `cursor`.
    pub fn new(cursor: &str) -> (r: Self)
        ensures
            r.0@ == cursor@,
    {
        Cursor(owned(cursor))
    }

    /// The text of the cursor.
    pub fn as_str(&self) -> (r: &str)
        ensures
            r@ == self.0@,
    {
        self.0.as_str()
    }
}

impl From<String> for Cursor {
    fn from(s: String) -> (r: Cursor) {
        Cursor(s)
    }
}

impl vstd::std_specs::convert::FromSpecImpl<String> for Cursor {
    open spec fn obeys_from_spec() -> bool {
        true
    }

    open spec fn from_spec(s: String) -> Cursor {
        Cursor(s)
    }
}

impl<'a> From<&'a str> for Cursor {
    fn from(s: &'a str) -> (r: Cursor)
        ensures
            r.0@ == s@,
    {
        Cursor(owned(s))
    }
}

impl<'a> vstd::std_specs::convert::FromSpecImpl<&'a str> for Cursor {
    open spec fn obeys_from_spec() -> bool {
        false
    }

    open spec fn from_spec(s: &'a str) -> Cursor {
        Cursor(arbitrary())
    }
}

/// The structured `_meta` of a request or response: pagination, progress,
/// and further members. The two fractional fields (`estimated_remaining_seconds`
/// and `progress`) are held as the IEEE-754 bit patterns of their `f64`
/// values, which no rule here computes with.
#[derive(Debug, Default)]
pub struct Meta {
    pub progress_token: Option<ProgressToken>,
    pub cursor: Option<Cursor>,
    pub total: Option<u64>,
    pub has_more: Option<bool>,
    pub estimated_remaining_seconds: Option<u64>,
    pub progress: Option<u64>,
    pub current_step: Option<u64>,
    pub total_steps: Option<u64>,
    pub extra: Vec<(String, Json)>,
}

/// The keys that the typed fields of a `_meta` own.
pub open spec fn is_structured_meta_key(k: Seq<char>) -> bool {
    k == "progressToken"@ || k == "cursor"@ || k == "total"@ || k == "hasMore"@ || k
        == "estimatedRemainingSeconds"@ || k == "progress"@ || k == "currentStep"@ || k
        == "totalSteps"@
}

/// `extra` after the members of `request` (in order) are merged into it:
/// each member whose key no typed field owns is set, the others skipped.
pub open spec fn merged_extra(extra: Seq<(String, Json)>, request: Seq<(String, Json)>) -> Seq<(String, Json)>
    decreases request.len(),
{
    if request.len() == 0 {
        extra
    } else {
        let m = merged_extra(extra, request.drop_last());
        if is_structured_meta_key(request.last().0@) {
            m
        } else {
            insert_entry(m, request.last().0, request.last().1)
        }
    }
}

/// Whether `a` and `b` agree on every typed field.
pub open spec fn same_typed_fields(a: Meta, b: Meta) -> bool {
    &&& a.progress_token == b.progress_token
    &&& a.cursor == b.cursor
    &&& a.total == b.total
    &&& a.has_more == b.has_more
    &&& a.estimated_remaining_seconds == b.estimated_remaining_seconds
    &&& a.progress == b.progress
    &&& a.current_step == b.current_step
    &&& a.total_steps == b.total_steps
}

impl Meta {
    /// A `_meta` with nothing set.
    pub fn new() -> (r: Self)
        ensures
            r.progress_token is None && r.cursor is None && r.total is None && r.has_more is None,
            r.estimated_remaining_seconds is None && r.progress is None,
            r.current_step is None && r.total_steps is None,
            r.extra@.len() == 0,
    {
        Meta {
            progress_token: None,
            cursor: None,
            total: None,
            has_more: None,
            estimated_remaining_seconds: None,
            progress: None,
            current_step: None,
            total_steps: None,
            extra: Vec::new(),
        }
    }

    /// A `_meta` carrying only the progress token `token`.
    pub fn with_progress_token(token: &str) -> (r: Self)
        ensures
            r.progress_token matches Some(t) && t.0@ == token@,
            r.cursor is None && r.total is None && r.has_more is None,
            r.estimated_remaining_seconds is None && r.progress is None,
            r.current_step is None && r.total_steps is None,
            r.extra@.len() == 0,
    {
        Meta { progress_token: Some(ProgressToken::new(token)), ..Meta::new() }
    }

    /// A `_meta` carrying only the cursor `cursor`.
    pub fn with_cursor(cursor: &str) -> (r: Self)
        ensures
            r.cursor matches Some(c) && c.0@ == cursor@,
            r.progress_token is None && r.total is None && r.has_more is None,
            r.estimated_remaining_seconds is None && r.progress is None,
            r.current_step is None && r.total_steps is None,
            r.extra@.len() == 0,
    {
        Meta { cursor: Some(Cursor::new(cursor)), ..Meta::new() }
    }

    /// A `_meta` carrying pagination: the cursor, the total and whether more
    /// follow.
    pub fn with_pagination(cursor: Option<Cursor>, total: Option<u64>, has_more: bool) -> (r: Self)
        ensures
            r.cursor == cursor,
            r.total == total,
            r.has_more == Some(has_more),
            r.progress_token is None,
            r.estimated_remaining_seconds is None && r.progress is None,
            r.current_step is None && r.total_steps is None,
            r.extra@.len() == 0,
    {
        Meta { cursor, total, has_more: Some(has_more), ..Meta::new() }
    }

    /// The same `_meta` with the progress token `token`.
    pub fn set_progress_token(self, token: &str) -> (r: Self)
        ensures
            r.progress_token matches Some(t) && t.0@ == token@,
            r == (Meta { progress_token: r.progress_token, ..self }),
    {
        Meta { progress_token: Some(ProgressToken::new(token)), ..self }
    }

    /// The same `_meta` with the cursor `cursor`.
    pub fn set_cursor(self, cursor: &str) -> (r: Self)
        ensures
            r.cursor matches Some(c) && c.0@ == cursor@,
            r == (Meta { cursor: r.cursor, ..self }),
    {
        Meta { cursor: Some(Cursor::new(cursor)), ..self }
    }

    /// The same `_meta` with its pagination replaced.
    pub fn set_pagination(self, cursor: Option<Cursor>, total: Option<u64>, has_more: bool) -> (r: Self)
        ensures
            r == (Meta { cursor, total, has_more: Some(has_more), ..self }),
    {
        Meta { cursor, total, has_more: Some(has_more), ..self }
    }

    /// The same `_meta` with the member `key` set to `value`.
    pub fn add_extra(self, key: &str, value: Json) -> (r: Self)
        ensures
            same_typed_fields(self, r),
            inserted(self.extra@, r.extra@, key@, value),
            keys_distinct(self.extra@) ==> keys_distinct(r.extra@),
    {
        let mut m = self;
        object_insert(&mut m.extra, owned(key), value);
        m
    }

    /// Whether the `_meta` carries nothing.
    pub fn is_empty(&self) -> (r: bool)
        ensures
            r == (self.progress_token is None && self.cursor is None && self.total is None
                && self.has_more is None && self.estimated_remaining_seconds is None
                && self.progress is None && self.current_step is None && self.total_steps is None
                && self.extra@.len() == 0),
    {
        self.progress_token.is_none() && self.cursor.is_none() && self.total.is_none()
            && self.has_more.is_none() && self.estimated_remaining_seconds.is_none()
            && self.progress.is_none() && self.current_step.is_none() && self.total_steps.is_none()
            && self.extra.len() == 0
    }

    /// Merges the members of an incoming request's `_meta` into this one:
    /// every member is set in `extra` except those under the keys of the
    /// typed fields, which are never taken from the request. The typed
    /// fields are kept.
    pub fn merge_request_extras(self, request_meta: Option<Vec<(String, Json)>>) -> (r: Self)
        ensures
            same_typed_fields(self, r),
            r.extra@ == match request_meta {
                Some(req) => merged_extra(self.extra@, req@),
                None => self.extra@,
            },
    {
        let mut m = self;
        match request_meta {
            None => m,
            Some(req) => {
                let ghost whole = req@;
                let ghost start = m.extra@;
                let mut rest = req;
                let n: usize = rest.len();
                let mut i: usize = 0;
                while rest.len() > 0
                    invariant
                        n == whole.len(),
                        i + rest@.len() == n,
                        rest@ == whole.subrange(i as int, n as int),
                        m.extra@ == merged_extra(start, whole.take(i as int)),
                        same_typed_fields(self, m),
                    decreases rest@.len(),
                {
                    let e = rest.remove(0);
                    assert(e == whole[i as int]);
                    assert(whole.take(i + 1).drop_last() =~= whole.take(i as int));
                    assert(whole.take(i + 1).last() == whole[i as int]);
                    let reserved = e.0 == owned("progressToken") || e.0 == owned("cursor") || e.0
                        == owned("total") || e.0 == owned("hasMore") || e.0 == owned(
                        "estimatedRemainingSeconds",
                    ) || e.0 == owned("progress") || e.0 == owned("currentStep") || e.0 == owned(
                        "totalSteps",
                    );
                    if !reserved {
                        object_insert(&mut m.extra, e.0, e.1);
                    }
                    i = i + 1;
                    assert(rest@ =~= whole.subrange(i as int, n as int));
                }
                assert(whole.take(n as int) =~= whole);
                m
            },
        }
    }
}

/// Merging a request's `_meta` never takes a typed field's key from the
/// request: those members stay as they were. Every other member of the
/// request is carried over (where the request's keys are distinct, as in a
/// map), members the request does not name stay as they were, and distinct
/// keys stay distinct.
pub proof fn lemma_merge_keeps_structured_keys(extra: Seq<(String, Json)>, request: Seq<(String, Json)>)
    ensures
        forall|k: Seq<char>| is_structured_meta_key(k) ==> #[trigger] lookup(merged_extra(extra, request), k)
            == lookup(extra, k),
        forall|k: Seq<char>| lookup(request, k) is None ==> #[trigger] lookup(merged_extra(extra, request), k)
            == lookup(extra, k),
        keys_distinct(request) ==> forall|k: Seq<char>|
            !is_structured_meta_key(k) && lookup(request, k) is Some ==> #[trigger] lookup(
                merged_extra(extra, request),
                k,
            ) == lookup(request, k),
        keys_distinct(extra) ==> keys_distinct(merged_extra(extra, request)),
    decreases request.len(),
{
    if request.len() > 0 {
        let init = request.drop_last();
        let x = request.last();
        assert(request == init.push(x));
        lemma_merge_keeps_structured_keys(extra, init);
        let m = merged_extra(extra, init);
        let r = merged_extra(extra, request);
        if !is_structured_meta_key(x.0@) {
            lemma_insert_entry(m, x.0, x.1);
        }
        assert forall|k: Seq<char>| is_structured_meta_key(k) implies #[trigger] lookup(r, k) == lookup(extra, k) by {
            assert(lookup(m, k) == lookup(extra, k));
        }
        assert forall|k: Seq<char>| lookup(request, k) is None implies #[trigger] lookup(r, k) == lookup(extra, k) by {
            lemma_lookup_push(init, x, k);
            assert(lookup(m, k) == lookup(extra, k));
        }
        if keys_distinct(request) {
            assert(keys_distinct(init)) by {
                assert forall|a: int, b: int| 0 <= a < b < init.len() implies #[trigger] init[a].0@
                    != #[trigger] init[b].0@ by {
                    assert(init[a] == request[a] && init[b] == request[b]);
                }
            }
            assert forall|k: Seq<char>| !is_structured_meta_key(k) && lookup(request, k) is Some implies #[trigger] lookup(r, k)
                == lookup(request, k) by {
                lemma_lookup_push(init, x, k);
                if lookup(init, k) is Some {
                    assert(lookup(m, k) == lookup(init, k));
                    if x.0@ == k {
                        crate::json::lemma_key_index_first(init, k, 0);
                        let j = crate::json::key_index(init, k, 0);
                        assert(init[j] == request[j]);
                        assert(request[j].0@ == request[request.len() - 1].0@);
                        assert(false);
                    }
                }
            }
        }
    }
}

/// Annotations of a resource, prompt or tool: its intended audience, its
/// priority and when it was last modified. The priority, a fraction between
/// 0 and 1, is held as the IEEE-754 bit pattern of its `f64` value.
#[derive(Debug, Clone)]
pub struct Annotations {
    pub audience: Option<Vec<String>>,
    pub priority: Option<u64>,
    pub last_modified: Option<String>,
}

impl Annotations {
    /// Annotations with nothing set.
    pub fn new() -> (r: Self)
        ensures
            r.audience is None,
            r.priority is None,
            r.last_modified is None,
    {
        Annotations { audience: None, priority: None, last_modified: None }
    }

    /// The same annotations intended for `audience`.
    pub fn with_audience(self, audience: Vec<String>) -> (r: Self)
        ensures
            r.audience == Some(audience),
            r.priority == self.priority,
            r.last_modified == self.last_modified,
    {
        Annotations { audience: Some(audience), ..self }
    }

    /// The same annotations, last modified at `last_modified`.
    pub fn with_last_modified(self, last_modified: &str) -> (r: Self)
        ensures
            r.audience == self.audience,
            r.priority == self.priority,
            r.last_modified matches Some(t) && t@ == last_modified@,
    {
        Annotations { last_modified: Some(owned(last_modified)), ..self }
    }
}

impl Default for Annotations {
    fn default() -> (r: Self)
        ensures
            r.audience is None,
            r.priority is None,
            r.last_modified is None,
    {
        Annotations::new()
    }
}

/// A type that may carry a `_meta`.
pub trait WithMeta {
    /// The `_meta`, where one is set.
    fn meta(&self) -> Option<&Meta>;

    /// Sets or clears the `_meta`.
    fn set_meta(&mut self, meta: Option<Meta>);
}

/// A response of data `T` with pagination in its `_meta`.
#[derive(Debug)]
pub struct PaginatedResponse<T> {
    pub data: T,
    pub meta: Option<Meta>,
}

impl<T> PaginatedResponse<T> {
    /// The response `data` with no `_meta`.
    pub fn new(data: T) -> (r: Self)
        ensures
            r.data == data,
            r.meta is None,
    {
        PaginatedResponse { data, meta: None }
    }

    /// The response `data` whose `_meta` carries the cursor, the total and
    /// whether more follow, and nothing else.
    pub fn with_pagination(data: T, cursor: Option<Cursor>, total: Option<u64>, has_more: bool) -> (r: Self)
        ensures
            r.data == data,
            r.meta matches Some(m) && m.cursor == cursor && m.total == total && m.has_more == Some(has_more)
                && m.progress_token is None && m.estimated_remaining_seconds is None && m.progress is None
                && m.current_step is None && m.total_steps is None && m.extra@.len() == 0,
    {
        PaginatedResponse { data, meta: Some(Meta::with_pagination(cursor, total, has_more)) }
    }
}

impl<T> WithMeta for PaginatedResponse<T> {
    fn meta(&self) -> (r: Option<&Meta>)
        ensures
            match r {
                Some(m) => self.meta == Some(*m),
                None => self.meta is None,
            },
    {
        self.meta.as_ref()
    }

    fn set_meta(&mut self, meta: Option<Meta>)
        ensures
            final(self).data == old(self).data,
            final(self).meta == meta,
    {
        self.meta = meta;
    }
}

/// A response of data `T` with progress in its `_meta`.
#[derive(Debug)]
pub struct ProgressResponse<T> {
    pub data: T,
    pub meta: Option<Meta>,
}

impl<T> ProgressResponse<T> {
    /// The response `data` with no `_meta`.
    pub fn new(data: T) -> (r: Self)
        ensures
            r.data == data,
            r.meta is None,
    {
        ProgressResponse { data, meta: None }
    }
}

impl<T> WithMeta for ProgressResponse<T> {
    fn meta(&self) -> (r: Option<&Meta>)
        ensures
            match r {
                Some(m) => self.meta == Some(*m),
                None => self.meta is None,
            },
    {
        self.meta.as_ref()
    }

    fn set_meta(&mut self, meta: Option<Meta>)
        ensures
            final(self).data == old(self).data,
            final(self).meta == meta,
    {
        self.meta = meta;
    }
}

} // verus!
