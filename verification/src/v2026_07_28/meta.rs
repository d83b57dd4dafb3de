//! Progress tokens, cursors, the convention `_meta` keys, and the typed
//! `_meta` objects of requests and results: what each carries and which
//! members reach the wire.

use vstd::prelude::*;
use crate::json::{Json, JsonNumber, lookup, keys_distinct, inserted, object_insert};
use crate::text::owned;
use crate::v2026_07_28::initialize::{Implementation, ClientCapabilities};
use crate::v2026_07_28::logging::LoggingLevel;
use crate::v2025_06_18::prompts::Role;

verus! {

/// A progress token: a string or a JSON number, as the wire gives it.
#[derive(Debug, Clone)]
pub enum ProgressToken {
    String(String),
    Number(JsonNumber),
}

impl ProgressToken {
    /// A string-form token.
    pub fn new(token: &str) -> (r: Self)
        ensures
            r matches ProgressToken::String(s) && s@ == token@,
    {
        ProgressToken::String(owned(token))
    }

    /// The string body of a string-form token.
    pub fn as_str(&self) -> (r: Option<&str>)
        ensures
            match *self {
                ProgressToken::String(s) => r matches Some(x) && x@ == s@,
                ProgressToken::Number(_) => r is None,
            },
    {
        match self {
            ProgressToken::String(s) => Some(s.as_str()),
            ProgressToken::Number(_) => None,
        }
    }

    /// The integer body of a number-form token that is an integer in `i64`
    /// range.
    pub fn as_i64(&self) -> (r: Option<i64>)
        ensures
            match *self {
                ProgressToken::String(_) => r is None,
                ProgressToken::Number(n) => r == n.as_i64_spec(),
            },
    {
        match self {
            ProgressToken::Number(n) => n.as_i64(),
            ProgressToken::String(_) => None,
        }
    }

    /// The number of a number-form token, as the wire gave it.
    pub fn as_number(&self) -> (r: Option<&JsonNumber>)
        ensures
            match *self {
                ProgressToken::String(_) => r is None,
                ProgressToken::Number(n) => r == Some(&n),
            },
    {
        match self {
            ProgressToken::Number(n) => Some(n),
            ProgressToken::String(_) => None,
        }
    }
}

/// The number-form token of an integer, as `serde_json::Number` holds it.
pub open spec fn int_token(i: int) -> ProgressToken {
    if i < 0 {
        ProgressToken::Number(JsonNumber::NegInt(i as i64))
    } else {
        ProgressToken::Number(JsonNumber::PosInt(i as u64))
    }
}

impl From<String> for ProgressToken {
    fn from(s: String) -> (r: ProgressToken) {
        ProgressToken::String(s)
    }
}

impl vstd::std_specs::convert::FromSpecImpl<String> for ProgressToken {
    open spec fn obeys_from_spec() -> bool {
        true
    }

    open spec fn from_spec(s: String) -> ProgressToken {
        ProgressToken::String(s)
    }
}

impl<'a> From<&'a str> for ProgressToken {
    fn from(s: &'a str) -> (r: ProgressToken)
        ensures
            r matches ProgressToken::String(x) && x@ == s@,
    {
        ProgressToken::String(owned(s))
    }
}

impl<'a> vstd::std_specs::convert::FromSpecImpl<&'a str> for ProgressToken {
    open spec fn obeys_from_spec() -> bool {
        false
    }

    open spec fn from_spec(s: &'a str) -> ProgressToken {
        ProgressToken::String(arbitrary())
    }
}

impl From<i64> for ProgressToken {
    fn from(n: i64) -> (r: ProgressToken) {
        ProgressToken::Number(JsonNumber::from_i64(n))
    }
}

impl vstd::std_specs::convert::FromSpecImpl<i64> for ProgressToken {
    open spec fn obeys_from_spec() -> bool {
        true
    }

    open spec fn from_spec(n: i64) -> ProgressToken {
        int_token(n as int)
    }
}

impl From<u64> for ProgressToken {
    fn from(n: u64) -> (r: ProgressToken) {
        ProgressToken::Number(JsonNumber::from_u64(n))
    }
}

impl vstd::std_specs::convert::FromSpecImpl<u64> for ProgressToken {
    open spec fn obeys_from_spec() -> bool {
        true
    }

    open spec fn from_spec(n: u64) -> ProgressToken {
        ProgressToken::Number(JsonNumber::PosInt(n))
    }
}

impl From<i32> for ProgressToken {
    fn from(n: i32) -> (r: ProgressToken) {
        ProgressToken::Number(JsonNumber::from_i64(n as i64))
    }
}

impl vstd::std_specs::convert::FromSpecImpl<i32> for ProgressToken {
    open spec fn obeys_from_spec() -> bool {
        true
    }

    open spec fn from_spec(n: i32) -> ProgressToken {
        int_token(n as int)
    }
}

/// An opaque pagination cursor.
#[derive(Debug, Clone)]
pub struct Cursor(pub String);

impl Cursor {
    /// The cursor `cursor`.
    pub fn new(cursor: &str) -> (r: Self)
        ensures
            r.0@ == cursor@,
    {
        Cursor(owned(cursor))
    }

    /// The text of the cursor.
    pub fn as_str(&self) -> (r: &str)
        ensures
            r@ == self.0@,
    {
        self.0.as_str()
    }
}

impl From<String> for Cursor {
    fn from(s: String) -> (r: Cursor) {
        Cursor(s)
    }
}

impl vstd::std_specs::convert::FromSpecImpl<String> for Cursor {
    open spec fn obeys_from_spec() -> bool {
        true
    }

    open spec fn from_spec(s: String) -> Cursor {
        Cursor(s)
    }
}

impl<'a> From<&'a str> for Cursor {
    fn from(s: &'a str) -> (r: Cursor)
        ensures
            r.0@ == s@,
    {
        Cursor(owned(s))
    }
}

impl<'a> vstd::std_specs::convert::FromSpecImpl<&'a str> for Cursor {
    open spec fn obeys_from_spec() -> bool {
        false
    }

    open spec fn from_spec(s: &'a str) -> Cursor {
        Cursor(arbitrary())
    }
}

/// `_meta` key of the W3C trace context `traceparent` value.
pub const META_KEY_TRACEPARENT: &'static str = "traceparent";

/// `_meta` key of the W3C trace context `tracestate` value.
pub const META_KEY_TRACESTATE: &'static str = "tracestate";

/// `_meta` key of the W3C `baggage` value.
pub const META_KEY_BAGGAGE: &'static str = "baggage";

/// `_meta` key of the subscription id that tags notifications of a
/// `subscriptions/listen` stream.
pub const META_KEY_SUBSCRIPTION_ID: &'static str = "io.modelcontextprotocol/subscriptionId";

/// `_meta` key of the per-request log level.
pub const META_KEY_LOG_LEVEL: &'static str = "io.modelcontextprotocol/logLevel";

/// `_meta` key of the request's protocol version.
pub const META_KEY_PROTOCOL_VERSION: &'static str = "io.modelcontextprotocol/protocolVersion";

/// `_meta` key of the request's client info.
pub const META_KEY_CLIENT_INFO: &'static str = "io.modelcontextprotocol/clientInfo";

/// `_meta` key of the request's client capabilities.
pub const META_KEY_CLIENT_CAPABILITIES: &'static str = "io.modelcontextprotocol/clientCapabilities";

/// `_meta` key of the responding server's implementation info.
pub const META_KEY_SERVER_INFO: &'static str = "io.modelcontextprotocol/serverInfo";

/// The key of the progress token in a request's `_meta`.
pub open spec fn progress_token_key() -> Seq<char> {
    "progressToken"@
}

/// The key of the protocol version.
pub open spec fn protocol_version_key() -> Seq<char> {
    "io.modelcontextprotocol/protocolVersion"@
}

/// The key of the client info.
pub open spec fn client_info_key() -> Seq<char> {
    "io.modelcontextprotocol/clientInfo"@
}

/// The key of the client capabilities.
pub open spec fn client_capabilities_key() -> Seq<char> {
    "io.modelcontextprotocol/clientCapabilities"@
}

/// The key of the per-request log level.
pub open spec fn log_level_key() -> Seq<char> {
    "io.modelcontextprotocol/logLevel"@
}

/// The key of the server info.
pub open spec fn server_info_key() -> Seq<char> {
    "io.modelcontextprotocol/serverInfo"@
}

/// The keys that the typed fields of a request's `_meta` own.
pub open spec fn is_reserved_request_key(k: Seq<char>) -> bool {
    k == progress_token_key() || k == protocol_version_key() || k == client_info_key() || k
        == client_capabilities_key() || k == log_level_key()
}

/// The positions of the members of `extra` whose keys no typed field of a
/// request's `_meta` owns, in increasing order.
pub open spec fn unreserved_positions(extra: Seq<(String, Json)>) -> Seq<int>
    decreases extra.len(),
{
    if extra.len() == 0 {
        seq![]
    } else {
        let rest = unreserved_positions(extra.drop_last());
        if is_reserved_request_key(extra.last().0@) {
            rest
        } else {
            rest.push(extra.len() - 1)
        }
    }
}

/// The members of `extra` other than a server info, in order.
pub open spec fn entries_without_server_info(extra: Seq<(String, Json)>) -> Seq<(String, Json)>
    decreases extra.len(),
{
    if extra.len() == 0 {
        seq![]
    } else {
        let rest = entries_without_server_info(extra.drop_last());
        if extra.last().0@ == server_info_key() {
            rest
        } else {
            rest.push(extra.last())
        }
    }
}

/// The positions of the members of `extra` whose key is not the server
/// info's, in increasing order.
pub open spec fn non_server_info_positions(extra: Seq<(String, Json)>) -> Seq<int>
    decreases extra.len(),
{
    if extra.len() == 0 {
        seq![]
    } else {
        let rest = non_server_info_positions(extra.drop_last());
        if extra.last().0@ == server_info_key() {
            rest
        } else {
            rest.push(extra.len() - 1)
        }
    }
}

/// The keys of `extra` at the positions `ps`.
pub open spec fn keys_at(extra: Seq<(String, Json)>, ps: Seq<int>) -> Seq<Seq<char>> {
    ps.map_values(|p: int| extra[p].0@)
}

/// Whether the exec positions `r` are the positions `ps`.
pub open spec fn same_positions(r: Seq<usize>, ps: Seq<int>) -> bool {
    r.len() == ps.len() && forall|j: int| 0 <= j < r.len() ==> r[j] as int == #[trigger] ps[j]
}

/// A request's typed `_meta`: the per-request negotiation of the stateless
/// protocol, and further members under other keys.
#[derive(Debug)]
pub struct RequestMetaObject {
    pub progress_token: Option<ProgressToken>,
    pub protocol_version: String,
    pub client_info: Option<Implementation>,
    pub client_capabilities: ClientCapabilities,
    pub log_level: Option<LoggingLevel>,
    pub extra: Vec<(String, Json)>,
}

/// The keys a request's `_meta` puts on the wire, in order: the typed
/// fields that are present, then the members of `extra` that no typed field
/// owns.
pub open spec fn request_wire_keys(m: RequestMetaObject) -> Seq<Seq<char>> {
    (if m.progress_token is Some { seq![progress_token_key()] } else { seq![] })
        + seq![protocol_version_key()]
        + (if m.client_info is Some { seq![client_info_key()] } else { seq![] })
        + seq![client_capabilities_key()]
        + (if m.log_level is Some { seq![log_level_key()] } else { seq![] })
        + keys_at(m.extra@, unreserved_positions(m.extra@))
}

impl RequestMetaObject {
    /// The `_meta` of a request encoded against `protocol_version`, from
    /// the client `client_info` with `client_capabilities`; no progress
    /// token, no log level, no other members.
    pub fn new(
        protocol_version: &str,
        client_info: Implementation,
        client_capabilities: ClientCapabilities,
    ) -> (r: Self)
        ensures
            r.progress_token is None,
            r.protocol_version@ == protocol_version@,
            r.client_info == Some(client_info),
            r.client_capabilities == client_capabilities,
            r.log_level is None,
            r.extra@.len() == 0,
    {
        RequestMetaObject {
            progress_token: None,
            protocol_version: owned(protocol_version),
            client_info: Some(client_info),
            client_capabilities,
            log_level: None,
            extra: Vec::new(),
        }
    }

    /// The same `_meta` without client info, as from a client configured
    /// not to report itself.
    pub fn without_client_info(self) -> (r: Self)
        ensures
            r.client_info is None,
            r.progress_token == self.progress_token,
            r.protocol_version == self.protocol_version,
            r.client_capabilities == self.client_capabilities,
            r.log_level == self.log_level,
            r.extra == self.extra,
    {
        RequestMetaObject { client_info: None, ..self }
    }

    /// The same `_meta` with a progress token.
    pub fn with_progress_token(self, token: ProgressToken) -> (r: Self)
        ensures
            r.progress_token == Some(token),
            r.client_info == self.client_info,
            r.protocol_version == self.protocol_version,
            r.client_capabilities == self.client_capabilities,
            r.log_level == self.log_level,
            r.extra == self.extra,
    {
        RequestMetaObject { progress_token: Some(token), ..self }
    }

    /// The same `_meta`, opting in to log notifications at `level`.
    pub fn with_log_level(self, level: LoggingLevel) -> (r: Self)
        ensures
            r.log_level == Some(level),
            r.progress_token == self.progress_token,
            r.client_info == self.client_info,
            r.protocol_version == self.protocol_version,
            r.client_capabilities == self.client_capabilities,
            r.extra == self.extra,
    {
        RequestMetaObject { log_level: Some(level), ..self }
    }

    /// The same `_meta` with the member `key` set to `value` (replacing an
    /// earlier member of that key).
    pub fn with_extra(self, key: &str, value: Json) -> (r: Self)
        ensures
            inserted(self.extra@, r.extra@, key@, value),
            keys_distinct(self.extra@) ==> keys_distinct(r.extra@),
            r.log_level == self.log_level,
            r.progress_token == self.progress_token,
            r.client_info == self.client_info,
            r.protocol_version == self.protocol_version,
            r.client_capabilities == self.client_capabilities,
    {
        let mut m = self;
        object_insert(&mut m.extra, owned(key), value);
        m
    }

    /// The positions of the members of `extra` that reach the wire: those
    /// whose keys no typed field owns, in order. A typed field always wins;
    /// a colliding member is dropped.
    pub fn emitted_extra_positions(&self) -> (r: Vec<usize>)
        ensures
            same_positions(r@, unreserved_positions(self.extra@)),
    {
        let k1 = owned("progressToken");
        let k2 = owned(META_KEY_PROTOCOL_VERSION);
        let k3 = owned(META_KEY_CLIENT_INFO);
        let k4 = owned(META_KEY_CLIENT_CAPABILITIES);
        let k5 = owned(META_KEY_LOG_LEVEL);
        let mut out: Vec<usize> = Vec::new();
        let mut i: usize = 0;
        while i < self.extra.len()
            invariant
                i <= self.extra@.len(),
                k1@ == progress_token_key(),
                k2@ == protocol_version_key(),
                k3@ == client_info_key(),
                k4@ == client_capabilities_key(),
                k5@ == log_level_key(),
                same_positions(out@, unreserved_positions(self.extra@.take(i as int))),
            decreases self.extra.len() - i,
        {
            assert(self.extra@.take(i + 1).drop_last() =~= self.extra@.take(i as int));
            let k = &self.extra[i].0;
            if !(*k == k1 || *k == k2 || *k == k3 || *k == k4 || *k == k5) {
                out.push(i);
            }
            i = i + 1;
        }
        assert(self.extra@.take(self.extra@.len() as int) =~= self.extra@);
        out
    }

    /// The number of members the `_meta` puts on the wire.
    pub fn wire_len(&self) -> (r: usize)
        requires
            self.extra@.len() + 5 <= usize::MAX,
        ensures
            r == request_wire_keys(*self).len(),
    {
        let ps = self.emitted_extra_positions();
        proof {
            lemma_unreserved_positions_shape(self.extra@);
        }
        let mut n: usize = ps.len() + 2;
        if self.progress_token.is_some() {
            n = n + 1;
        }
        if self.client_info.is_some() {
            n = n + 1;
        }
        if self.log_level.is_some() {
            n = n + 1;
        }
        n
    }
}

/// The positions are increasing, in range, and exactly those of members
/// whose keys no typed field owns.
pub proof fn lemma_unreserved_positions_shape(extra: Seq<(String, Json)>)
    ensures
        unreserved_positions(extra).len() <= extra.len(),
        forall|j: int| 0 <= j < unreserved_positions(extra).len() ==> {
            &&& 0 <= #[trigger] unreserved_positions(extra)[j] < extra.len()
            &&& !is_reserved_request_key(extra[unreserved_positions(extra)[j]].0@)
        },
        forall|a: int, b: int| 0 <= a < b < unreserved_positions(extra).len() ==>
            #[trigger] unreserved_positions(extra)[a] < #[trigger] unreserved_positions(extra)[b],
        forall|p: int| 0 <= p < extra.len() && !is_reserved_request_key(#[trigger] extra[p].0@) ==>
            unreserved_positions(extra).contains(p),
    decreases extra.len(),
{
    if extra.len() > 0 {
        let init = extra.drop_last();
        lemma_unreserved_positions_shape(init);
        assert forall|p: int| 0 <= p < extra.len() && !is_reserved_request_key(#[trigger] extra[p].0@)
            implies unreserved_positions(extra).contains(p) by {
            if p < extra.len() - 1 {
                assert(init[p] == extra[p]);
                let w = choose|w: int| 0 <= w < unreserved_positions(init).len() && unreserved_positions(init)[w] == p;
                assert(unreserved_positions(extra)[w] == p);
            } else {
                assert(unreserved_positions(extra).last() == p);
            }
        }
    }
}


/// The typed keys are pairwise different.
proof fn lemma_reserved_keys_differ()
    ensures
        progress_token_key() != protocol_version_key(),
        progress_token_key() != client_info_key(),
        progress_token_key() != client_capabilities_key(),
        progress_token_key() != log_level_key(),
        protocol_version_key() != client_info_key(),
        protocol_version_key() != client_capabilities_key(),
        protocol_version_key() != log_level_key(),
        client_info_key() != client_capabilities_key(),
        client_info_key() != log_level_key(),
        client_capabilities_key() != log_level_key(),
{
    reveal_strlit("progressToken");
    reveal_strlit("io.modelcontextprotocol/protocolVersion");
    reveal_strlit("io.modelcontextprotocol/clientInfo");
    reveal_strlit("io.modelcontextprotocol/clientCapabilities");
    reveal_strlit("io.modelcontextprotocol/logLevel");
    assert(progress_token_key().len() != protocol_version_key().len());
    assert(progress_token_key().len() != client_info_key().len());
    assert(progress_token_key().len() != client_capabilities_key().len());
    assert(progress_token_key().len() != log_level_key().len());
    assert(protocol_version_key().len() != client_info_key().len());
    assert(protocol_version_key().len() != client_capabilities_key().len());
    assert(protocol_version_key().len() != log_level_key().len());
    assert(client_info_key().len() != client_capabilities_key().len());
    assert(client_info_key().len() != log_level_key().len());
    assert(client_capabilities_key().len() != log_level_key().len());
}

/// The typed fields own the wire keys they emit: a request's `_meta` puts
/// the protocol version and the client capabilities on the wire, and no key
/// that a typed field owns appears twice, whatever `extra` holds; where the
/// keys of `extra` are distinct, no key appears twice at all.
pub proof fn lemma_request_wire_keys_unique(m: RequestMetaObject)
    ensures
        request_wire_keys(m).contains(protocol_version_key()),
        request_wire_keys(m).contains(client_capabilities_key()),
        forall|i: int, j: int|
            0 <= i < request_wire_keys(m).len() && 0 <= j < request_wire_keys(m).len() && i != j
                && is_reserved_request_key(#[trigger] request_wire_keys(m)[i])
                ==> request_wire_keys(m)[i] != #[trigger] request_wire_keys(m)[j],
        keys_distinct(m.extra@) ==> forall|i: int, j: int|
            0 <= i < j < request_wire_keys(m).len() ==> #[trigger] request_wire_keys(m)[i]
                != #[trigger] request_wire_keys(m)[j],
{
    lemma_reserved_keys_differ();
    lemma_unreserved_positions_shape(m.extra@);
    let ps = unreserved_positions(m.extra@);
    let tail = keys_at(m.extra@, ps);
    let pre = (if m.progress_token is Some { seq![progress_token_key()] } else { seq![] })
        + seq![protocol_version_key()]
        + (if m.client_info is Some { seq![client_info_key()] } else { seq![] })
        + seq![client_capabilities_key()]
        + (if m.log_level is Some { seq![log_level_key()] } else { seq![] });
    let wk = request_wire_keys(m);
    assert(wk == pre + tail);
    assert(forall|i: int| 0 <= i < pre.len() ==> is_reserved_request_key(#[trigger] pre[i]));
    assert(forall|i: int, j: int| 0 <= i < j < pre.len() ==> #[trigger] pre[i] != #[trigger] pre[j]);
    assert(forall|k: int| 0 <= k < tail.len() ==> !is_reserved_request_key(#[trigger] tail[k]));
    let off = pre.len() as int;
    let a: int = if m.progress_token is Some { 1 } else { 0 };
    let b: int = a + 1 + if m.client_info is Some { 1int } else { 0int };
    assert(pre[a] == protocol_version_key());
    assert(pre[b] == client_capabilities_key());
    assert(wk[a] == protocol_version_key());
    assert(wk[b] == client_capabilities_key());
    assert forall|i: int, j: int|
        0 <= i < wk.len() && 0 <= j < wk.len() && i != j && is_reserved_request_key(#[trigger] wk[i])
        implies wk[i] != #[trigger] wk[j] by {
        if i >= off {
            assert(wk[i] == tail[i - off]);
        } else if j >= off {
            assert(wk[j] == tail[j - off]);
        } else {
            assert(wk[i] == pre[i] && wk[j] == pre[j]);
        }
    }
    if keys_distinct(m.extra@) {
        assert forall|i: int, j: int| 0 <= i < j < wk.len() implies #[trigger] wk[i] != #[trigger] wk[j] by {
            if i >= off {
                assert(wk[i] == tail[i - off] && wk[j] == tail[j - off]);
                assert(ps[i - off] < ps[j - off]);
                assert(tail[i - off] == m.extra@[ps[i - off]].0@);
                assert(tail[j - off] == m.extra@[ps[j - off]].0@);
            } else if j >= off {
                assert(wk[j] == tail[j - off]);
                assert(wk[i] == pre[i]);
            } else {
                assert(wk[i] == pre[i] && wk[j] == pre[j]);
            }
        }
    }
}

/// A result's typed `_meta`: the responding server's identity and further
/// members under other keys.
#[derive(Debug, Default)]
pub struct ResultMetaObject {
    pub server_info: Option<Implementation>,
    pub extra: Vec<(String, Json)>,
}

/// The keys a result's `_meta` puts on the wire: the server info where
/// present, then the members of `extra` under other keys.
pub open spec fn result_wire_keys(m: ResultMetaObject) -> Seq<Seq<char>> {
    (if m.server_info is Some { seq![server_info_key()] } else { seq![] }) + keys_at(
        m.extra@,
        non_server_info_positions(m.extra@),
    )
}

impl ResultMetaObject {
    /// The same `_meta`, carrying the responding server's identity.
    pub fn with_server_info(self, info: Implementation) -> (r: Self)
        ensures
            r.server_info == Some(info),
            r.extra == self.extra,
    {
        ResultMetaObject { server_info: Some(info), ..self }
    }

    /// The same `_meta` with the member `key` set to `value` (replacing an
    /// earlier member of that key).
    pub fn with_extra(self, key: &str, value: Json) -> (r: Self)
        ensures
            inserted(self.extra@, r.extra@, key@, value),
            keys_distinct(self.extra@) ==> keys_distinct(r.extra@),
            r.server_info == self.server_info,
    {
        let mut m = self;
        object_insert(&mut m.extra, owned(key), value);
        m
    }

    /// Whether nothing would reach the wire: no server info, and no member
    /// of `extra` under another key.
    pub fn is_empty(&self) -> (r: bool)
        ensures
            r == (self.server_info is None && forall|i: int|
                0 <= i < self.extra@.len() ==> #[trigger] self.extra@[i].0@ == server_info_key()),
            r == (result_wire_keys(*self).len() == 0),
    {
        proof {
            lemma_non_server_info_positions_shape(self.extra@);
        }
        if self.server_info.is_some() {
            return false;
        }
        let key = owned(META_KEY_SERVER_INFO);
        let mut i: usize = 0;
        while i < self.extra.len()
            invariant
                i <= self.extra@.len(),
                key@ == server_info_key(),
                self.server_info is None,
                forall|j: int| 0 <= j < i ==> #[trigger] self.extra@[j].0@ == server_info_key(),
            decreases self.extra.len() - i,
        {
            if self.extra[i].0 != key {
                proof {
                    lemma_non_server_info_positions_shape(self.extra@);
                    assert(self.extra@[i as int].0@ != server_info_key());
                    let ps = non_server_info_positions(self.extra@);
                    assert(ps.contains(i as int));
                    let w = choose|w: int| 0 <= w < ps.len() && ps[w] == i as int;
                    assert(result_wire_keys(*self) =~= keys_at(self.extra@, ps));
                    assert(result_wire_keys(*self)[w] == self.extra@[i as int].0@);
                }
                return false;
            }
            i = i + 1;
        }
        proof {
            let ps = non_server_info_positions(self.extra@);
            if ps.len() > 0 {
                assert(self.extra@[ps[0]].0@ == server_info_key());
            }
        }
        true
    }

    /// The positions of the members of `extra` that reach the wire: those
    /// not under the server info's key, which the typed field owns.
    pub fn emitted_extra_positions(&self) -> (r: Vec<usize>)
        ensures
            same_positions(r@, non_server_info_positions(self.extra@)),
    {
        let key = owned(META_KEY_SERVER_INFO);
        let mut out: Vec<usize> = Vec::new();
        let mut i: usize = 0;
        while i < self.extra.len()
            invariant
                i <= self.extra@.len(),
                key@ == server_info_key(),
                same_positions(out@, non_server_info_positions(self.extra@.take(i as int))),
            decreases self.extra.len() - i,
        {
            assert(self.extra@.take(i + 1).drop_last() =~= self.extra@.take(i as int));
            if self.extra[i].0 != key {
                out.push(i);
            }
            i = i + 1;
        }
        assert(self.extra@.take(self.extra@.len() as int) =~= self.extra@);
        out
    }

    /// Lifts a loose `_meta` map into the typed carrier. The server info's
    /// key belongs to the typed field: its members leave `extra`, and the
    /// field takes `parsed_server_info`, the member's value read as an
    /// implementation (none where it does not read as one); without such a
    /// member the field is empty. Every other member is carried through.
    pub fn from_meta_object(map: Vec<(String, Json)>, parsed_server_info: Option<Implementation>) -> (r: Self)
        ensures
            r.extra@ == entries_without_server_info(map@),
            r.server_info == (if lookup(map@, server_info_key()) is Some {
                parsed_server_info
            } else {
                None
            }),
    {
        let key = owned(META_KEY_SERVER_INFO);
        let found = crate::json::find_key(&map, &key);
        proof {
            crate::json::lemma_key_index_range(map@, key@, 0);
        }
        let mut rest = map;
        let mut out: Vec<(String, Json)> = Vec::new();
        let ghost whole = rest@;
        let n: usize = rest.len();
        assert(whole.len() == n);
        let mut i: usize = 0;
        while rest.len() > 0
            invariant
                key@ == server_info_key(),
                whole.len() <= usize::MAX,
                i + rest@.len() == whole.len(),
                rest@ == whole.subrange(i as int, whole.len() as int),
                out@ == entries_without_server_info(whole.take(i as int)),
            decreases rest@.len(),
        {
            let e = rest.remove(0);
            assert(whole.take(i + 1).drop_last() =~= whole.take(i as int));
            assert(e == whole[i as int]);
            if e.0 != key {
                out.push(e);
            }
            i = i + 1;
            assert(rest@ =~= whole.subrange(i as int, whole.len() as int));
        }
        assert(whole.take(whole.len() as int) =~= whole);
        let server_info = match found {
            Some(_) => parsed_server_info,
            None => None,
        };
        ResultMetaObject { server_info, extra: out }
    }
}

/// The positions are increasing, in range, and exactly those of members
/// not under the server info's key.
pub proof fn lemma_non_server_info_positions_shape(extra: Seq<(String, Json)>)
    ensures
        non_server_info_positions(extra).len() <= extra.len(),
        forall|j: int| 0 <= j < non_server_info_positions(extra).len() ==> {
            &&& 0 <= #[trigger] non_server_info_positions(extra)[j] < extra.len()
            &&& extra[non_server_info_positions(extra)[j]].0@ != server_info_key()
        },
        forall|a: int, b: int| 0 <= a < b < non_server_info_positions(extra).len() ==>
            #[trigger] non_server_info_positions(extra)[a] < #[trigger] non_server_info_positions(extra)[b],
        forall|p: int| 0 <= p < extra.len() && #[trigger] extra[p].0@ != server_info_key() ==>
            non_server_info_positions(extra).contains(p),
    decreases extra.len(),
{
    if extra.len() > 0 {
        let init = extra.drop_last();
        lemma_non_server_info_positions_shape(init);
        assert forall|p: int| 0 <= p < extra.len() && #[trigger] extra[p].0@ != server_info_key()
            implies non_server_info_positions(extra).contains(p) by {
            if p < extra.len() - 1 {
                assert(init[p] == extra[p]);
                let w = choose|w: int| 0 <= w < non_server_info_positions(init).len() && non_server_info_positions(init)[w] == p;
                assert(non_server_info_positions(extra)[w] == p);
            } else {
                assert(non_server_info_positions(extra).last() == p);
            }
        }
    }
}

/// The server info's key reaches the wire at most once, and only from the
/// typed field; where the keys of `extra` are distinct, no key appears twice.
pub proof fn lemma_result_wire_keys_unique(m: ResultMetaObject)
    ensures
        forall|i: int| 0 <= i < result_wire_keys(m).len() && #[trigger] result_wire_keys(m)[i]
            == server_info_key() ==> i == 0 && m.server_info is Some,
        keys_distinct(m.extra@) ==> forall|i: int, j: int|
            0 <= i < j < result_wire_keys(m).len() ==> #[trigger] result_wire_keys(m)[i]
                != #[trigger] result_wire_keys(m)[j],
{
    lemma_non_server_info_positions_shape(m.extra@);
    let ps = non_server_info_positions(m.extra@);
    let tail = keys_at(m.extra@, ps);
    let pre = if m.server_info is Some { seq![server_info_key()] } else { seq![] };
    let wk = result_wire_keys(m);
    assert(wk == pre + tail);
    let off = pre.len() as int;
    assert forall|i: int| 0 <= i < wk.len() && #[trigger] wk[i] == server_info_key() implies i == 0
        && m.server_info is Some by {
        if i >= off {
            assert(wk[i] == tail[i - off]);
        }
    }
    if keys_distinct(m.extra@) {
        assert forall|i: int, j: int| 0 <= i < j < wk.len() implies #[trigger] wk[i] != #[trigger] wk[j] by {
            if i >= off {
                assert(wk[i] == tail[i - off] && wk[j] == tail[j - off]);
                assert(ps[i - off] < ps[j - off]);
            } else {
                assert(wk[j] == tail[j - off]);
            }
        }
    }
}

/// Annotations of a resource, prompt, tool or content block: its intended
/// audience (user, assistant or both), its priority and when it was last
/// modified. The priority, a fraction between 0 and 1, is held as the
/// IEEE-754 bit pattern of its `f64` value.
#[derive(Debug, Clone)]
pub struct Annotations {
    pub audience: Option<Vec<Role>>,
    pub priority: Option<u64>,
    pub last_modified: Option<String>,
}

impl Annotations {
    /// Annotations with nothing set.
    pub fn new() -> (r: Self)
        ensures
            r.audience is None,
            r.priority is None,
            r.last_modified is None,
    {
        Annotations { audience: None, priority: None, last_modified: None }
    }

    /// The same annotations intended for `audience`.
    pub fn with_audience(self, audience: Vec<Role>) -> (r: Self)
        ensures
            r == (Annotations { audience: Some(audience), ..self }),
    {
        Annotations { audience: Some(audience), ..self }
    }

    /// The same annotations, last modified at `last_modified`.
    pub fn with_last_modified(self, last_modified: &str) -> (r: Self)
        ensures
            r == (Annotations { last_modified: r.last_modified, ..self }),
            r.last_modified matches Some(t) && t@ == last_modified@,
    {
        Annotations { last_modified: Some(owned(last_modified)), ..self }
    }
}

impl Default for Annotations {
    fn default() -> (r: Self)
        ensures
            r.audience is None,
            r.priority is None,
            r.last_modified is None,
    {
        Annotations::new()
    }
}

} // verus!
