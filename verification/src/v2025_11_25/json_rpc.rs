//! JSON-RPC 2.0 envelopes of this revision: request parameters with a
//! structured `_meta`, results with a loose `_meta`, requests, responses,
//! errors and notifications.

use vstd::prelude::*;
use crate::json::{Json, JsonNumber};
use crate::text::owned;
use crate::v2025_11_25::meta::{Meta, ProgressToken};

verus! {

/// The JSON-RPC version string.
pub const JSONRPC_VERSION: &'static str = "2.0";

/// A request's `params`: an optional structured `_meta` and the method's
/// own parameters.
#[derive(Debug)]
pub struct RequestParams {
    pub meta: Option<Meta>,
    pub other: Vec<(String, Json)>,
}

/// Whether the IEEE-754 bit pattern `b` is a finite number (JSON has no
/// representation for infinities and NaN).
pub open spec fn is_finite_f64_bits(b: u64) -> bool {
    (b >> 52u64) & 0x7ffu64 != 0x7ffu64
}

/// Whether every fractional field of `m` holds a finite number.
pub open spec fn fractions_finite(m: Meta) -> bool {
    &&& m.estimated_remaining_seconds matches Some(b) ==> is_finite_f64_bits(b)
    &&& m.progress matches Some(b) ==> is_finite_f64_bits(b)
}

/// The key of the `i`-th typed field of `m`, where that field is set.
pub open spec fn field_key(m: Meta, i: int) -> Seq<Seq<char>> {
    if i == 0 {
        if m.progress_token is Some { seq!["progressToken"@] } else { seq![] }
    } else if i == 1 {
        if m.cursor is Some { seq!["cursor"@] } else { seq![] }
    } else if i == 2 {
        if m.total is Some { seq!["total"@] } else { seq![] }
    } else if i == 3 {
        if m.has_more is Some { seq!["hasMore"@] } else { seq![] }
    } else if i == 4 {
        if m.estimated_remaining_seconds is Some { seq!["estimatedRemainingSeconds"@] } else { seq![] }
    } else if i == 5 {
        if m.progress is Some { seq!["progress"@] } else { seq![] }
    } else if i == 6 {
        if m.current_step is Some { seq!["currentStep"@] } else { seq![] }
    } else {
        if m.total_steps is Some { seq!["totalSteps"@] } else { seq![] }
    }
}

/// The value of the `i`-th typed field of `m`, where that field is set: the
/// token and the cursor as strings, the counts as non-negative integers,
/// `hasMore` as a boolean, the fractions as floating-point numbers.
pub open spec fn field_value(m: Meta, i: int) -> Seq<Json> {
    if i == 0 {
        match m.progress_token { Some(t) => seq![Json::String(t.0)], None => seq![] }
    } else if i == 1 {
        match m.cursor { Some(c) => seq![Json::String(c.0)], None => seq![] }
    } else if i == 2 {
        match m.total { Some(n) => seq![Json::Number(JsonNumber::PosInt(n))], None => seq![] }
    } else if i == 3 {
        match m.has_more { Some(b) => seq![Json::Bool(b)], None => seq![] }
    } else if i == 4 {
        match m.estimated_remaining_seconds {
            Some(b) => seq![Json::Number(JsonNumber::FloatBits(b))],
            None => seq![],
        }
    } else if i == 5 {
        match m.progress { Some(b) => seq![Json::Number(JsonNumber::FloatBits(b))], None => seq![] }
    } else if i == 6 {
        match m.current_step { Some(n) => seq![Json::Number(JsonNumber::PosInt(n))], None => seq![] }
    } else {
        match m.total_steps { Some(n) => seq![Json::Number(JsonNumber::PosInt(n))], None => seq![] }
    }
}

/// The keys of the first `n` typed fields of `m` that are set, in order.
pub open spec fn keys_upto(m: Meta, n: nat) -> Seq<Seq<char>>
    decreases n,
{
    if n == 0 { seq![] } else { keys_upto(m, (n - 1) as nat) + field_key(m, n - 1) }
}

/// The values of the first `n` typed fields of `m` that are set, in order.
pub open spec fn values_upto(m: Meta, n: nat) -> Seq<Json>
    decreases n,
{
    if n == 0 { seq![] } else { values_upto(m, (n - 1) as nat) + field_value(m, n - 1) }
}

/// The keys of the members that `_meta` `m` is rendered with, in order: one
/// for each typed field that is set (`progressToken`, `cursor`, `total`,
/// `hasMore`, `estimatedRemainingSeconds`, `progress`, `currentStep`,
/// `totalSteps`).
pub open spec fn meta_member_keys(m: Meta) -> Seq<Seq<char>> {
    keys_upto(m, 8)
}

/// The values of those members, in the same order.
pub open spec fn meta_member_values(m: Meta) -> Seq<Json> {
    values_upto(m, 8)
}

/// Whether `es` are the members `m` is rendered with.
pub open spec fn renders_meta(m: Meta, es: Seq<(String, Json)>) -> bool {
    &&& es.map_values(|e: (String, Json)| e.0@) == meta_member_keys(m)
    &&& es.map_values(|e: (String, Json)| e.1) == meta_member_values(m)
}

/// The member rendering the `i`-th typed field of `m`, where it is set.
fn field_member(m: &Meta, i: usize) -> (r: Option<(String, Json)>)
    requires
        i < 8,
    ensures
        r is None <==> field_key(*m, i as int).len() == 0,
        r matches Some(e) ==> field_key(*m, i as int) == seq![e.0@] && field_value(*m, i as int)
            == seq![e.1],
{
    if i == 0 {
        match &m.progress_token {
            Some(t) => Some((owned("progressToken"), Json::String(t.0.clone()))),
            None => None,
        }
    } else if i == 1 {
        match &m.cursor {
            Some(c) => Some((owned("cursor"), Json::String(c.0.clone()))),
            None => None,
        }
    } else if i == 2 {
        match m.total {
            Some(n) => Some((owned("total"), Json::Number(JsonNumber::PosInt(n)))),
            None => None,
        }
    } else if i == 3 {
        match m.has_more {
            Some(b) => Some((owned("hasMore"), Json::Bool(b))),
            None => None,
        }
    } else if i == 4 {
        match m.estimated_remaining_seconds {
            Some(b) => Some((owned("estimatedRemainingSeconds"), Json::Number(JsonNumber::FloatBits(b)))),
            None => None,
        }
    } else if i == 5 {
        match m.progress {
            Some(b) => Some((owned("progress"), Json::Number(JsonNumber::FloatBits(b)))),
            None => None,
        }
    } else if i == 6 {
        match m.current_step {
            Some(n) => Some((owned("currentStep"), Json::Number(JsonNumber::PosInt(n)))),
            None => None,
        }
    } else {
        match m.total_steps {
            Some(n) => Some((owned("totalSteps"), Json::Number(JsonNumber::PosInt(n)))),
            None => None,
        }
    }
}

impl RequestParams {
    /// The structured `_meta` rendered as a map of its typed fields (its
    /// further members are not included); none where there is no `_meta`.
    #[verifier::rlimit(50)]
    pub fn meta(&self) -> (r: Option<Vec<(String, Json)>>)
        requires
            self.meta matches Some(m) ==> fractions_finite(m),
        ensures
            r is None <==> self.meta is None,
            self.meta matches Some(m) ==> (r matches Some(es) && renders_meta(m, es@)),
    {
        match &self.meta {
            None => None,
            Some(m) => {
                let mut out: Vec<(String, Json)> = Vec::new();
                let mut i: usize = 0;
                assert(out@.map_values(|e: (String, Json)| e.0@) =~= keys_upto(*m, 0));
                assert(out@.map_values(|e: (String, Json)| e.1) =~= values_upto(*m, 0));
                while i < 8
                    invariant
                        i <= 8,
                        out@.map_values(|e: (String, Json)| e.0@) == keys_upto(*m, i as nat),
                        out@.map_values(|e: (String, Json)| e.1) == values_upto(*m, i as nat),
                    decreases 8 - i,
                {
                    match field_member(m, i) {
                        Some(e) => {
                            out.push(e);
                        },
                        None => {},
                    }
                    assert(out@.map_values(|e: (String, Json)| e.0@) =~= keys_upto(*m, (i + 1) as nat));
                    assert(out@.map_values(|e: (String, Json)| e.1) =~= values_upto(*m, (i + 1) as nat));
                    i = i + 1;
                }
                Some(out)
            },
        }
    }

    /// The progress token of the `_meta`, if any.
    pub fn progress_token(&self) -> (r: Option<&ProgressToken>)
        ensures
            match self.meta {
                Some(m) => match m.progress_token {
                    Some(t) => r == Some(&t),
                    None => r is None,
                },
                None => r is None,
            },
    {
        match &self.meta {
            Some(m) => match &m.progress_token {
                Some(t) => Some(t),
                None => None,
            },
            None => None,
        }
    }

    /// The method's own parameters.
    pub fn data(&self) -> (r: &Vec<(String, Json)>)
        ensures
            r == &self.other,
    {
        &self.other
    }
}

/// A result: its members and an optional loose `_meta`.
#[derive(Debug)]
pub struct ResultWithMeta {
    pub data: Vec<(String, Json)>,
    pub meta: Option<Vec<(String, Json)>>,
}

impl ResultWithMeta {
    /// A result with the members `data` and no `_meta`.
    pub fn new(data: Vec<(String, Json)>) -> (r: Self)
        ensures
            r.data == data,
            r.meta is None,
    {
        ResultWithMeta { data, meta: None }
    }

    /// The same result with the `_meta` `meta`.
    pub fn with_meta(self, meta: Vec<(String, Json)>) -> (r: Self)
        ensures
            r.data == self.data,
            r.meta == Some(meta),
    {
        ResultWithMeta { meta: Some(meta), ..self }
    }

    /// The result whose members are those of the object `value`; no members
    /// for any other JSON value.
    pub fn from_value(value: Json) -> (r: Self)
        ensures
            r.meta is None,
            match value {
                Json::Object(es) => r.data == es,
                _ => r.data@.len() == 0,
            },
    {
        match value {
            Json::Object(es) => ResultWithMeta { data: es, meta: None },
            _ => ResultWithMeta { data: Vec::new(), meta: None },
        }
    }
}

/// A JSON-RPC request.
#[derive(Debug)]
pub struct JsonRpcRequest {
    pub jsonrpc: String,
    pub id: Json,
    pub method: String,
    pub params: Option<RequestParams>,
}

impl JsonRpcRequest {
    /// A `2.0` request `id` for `method`, without parameters.
    pub fn new(id: Json, method: String) -> (r: Self)
        ensures
            r.jsonrpc@ == "2.0"@,
            r.id == id,
            r.method == method,
            r.params is None,
    {
        JsonRpcRequest { jsonrpc: owned(JSONRPC_VERSION), id, method, params: None }
    }

    /// The same request with `params`.
    pub fn with_params(self, params: RequestParams) -> (r: Self)
        ensures
            r.jsonrpc == self.jsonrpc,
            r.id == self.id,
            r.method == self.method,
            r.params == Some(params),
    {
        JsonRpcRequest { params: Some(params), ..self }
    }
}

/// A JSON-RPC error object of a response.
#[derive(Debug)]
pub struct JsonRpcError {
    pub code: i32,
    pub message: String,
    pub data: Option<Json>,
}

impl JsonRpcError {
    /// The error `code` with `message` and no data.
    pub fn new(code: i32, message: String) -> (r: Self)
        ensures
            r.code == code,
            r.message == message,
            r.data is None,
    {
        JsonRpcError { code, message, data: None }
    }

    /// The same error carrying `data`.
    pub fn with_data(self, data: Json) -> (r: Self)
        ensures
            r.code == self.code,
            r.message == self.message,
            r.data == Some(data),
    {
        JsonRpcError { data: Some(data), ..self }
    }

    /// "Parse error" (`-32700`).
    pub fn parse_error() -> (r: Self)
        ensures
            r.code == -32700 && r.message@ == "Parse error"@ && r.data is None,
    {
        JsonRpcError::new(-32700, owned("Parse error"))
    }

    /// "Invalid Request" (`-32600`).
    pub fn invalid_request() -> (r: Self)
        ensures
            r.code == -32600 && r.message@ == "Invalid Request"@ && r.data is None,
    {
        JsonRpcError::new(-32600, owned("Invalid Request"))
    }

    /// "Method not found" (`-32601`).
    pub fn method_not_found() -> (r: Self)
        ensures
            r.code == -32601 && r.message@ == "Method not found"@ && r.data is None,
    {
        JsonRpcError::new(-32601, owned("Method not found"))
    }

    /// "Invalid params" (`-32602`).
    pub fn invalid_params() -> (r: Self)
        ensures
            r.code == -32602 && r.message@ == "Invalid params"@ && r.data is None,
    {
        JsonRpcError::new(-32602, owned("Invalid params"))
    }

    /// "Internal error" (`-32603`).
    pub fn internal_error() -> (r: Self)
        ensures
            r.code == -32603 && r.message@ == "Internal error"@ && r.data is None,
    {
        JsonRpcError::new(-32603, owned("Internal error"))
    }
}

/// A JSON-RPC response: a result or an error for the request `id`.
#[derive(Debug)]
pub struct JsonRpcResponse {
    pub jsonrpc: String,
    pub id: Json,
    pub result: Option<ResultWithMeta>,
    pub error: Option<JsonRpcError>,
}

impl JsonRpcResponse {
    /// The successful response to `id` with `result`.
    pub fn success(id: Json, result: ResultWithMeta) -> (r: Self)
        ensures
            r.jsonrpc@ == "2.0"@,
            r.id == id,
            r.result == Some(result),
            r.error is None,
    {
        JsonRpcResponse { jsonrpc: owned(JSONRPC_VERSION), id, result: Some(result), error: None }
    }

    /// The failed response to `id` with `error`.
    pub fn error(id: Json, error: JsonRpcError) -> (r: Self)
        ensures
            r.jsonrpc@ == "2.0"@,
            r.id == id,
            r.result is None,
            r.error == Some(error),
    {
        JsonRpcResponse { jsonrpc: owned(JSONRPC_VERSION), id, result: None, error: Some(error) }
    }
}

/// A JSON-RPC notification.
#[derive(Debug)]
pub struct JsonRpcNotification {
    pub jsonrpc: String,
    pub method: String,
    pub params: Option<RequestParams>,
}

impl JsonRpcNotification {
    /// A `2.0` notification of `method`, without parameters.
    pub fn new(method: String) -> (r: Self)
        ensures
            r.jsonrpc@ == "2.0"@,
            r.method == method,
            r.params is None,
    {
        JsonRpcNotification { jsonrpc: owned(JSONRPC_VERSION), method, params: None }
    }

    /// The same notification with `params`.
    pub fn with_params(self, params: RequestParams) -> (r: Self)
        ensures
            r.jsonrpc == self.jsonrpc,
            r.method == self.method,
            r.params == Some(params),
    {
        JsonRpcNotification { params: Some(params), ..self }
    }
}

/// Any JSON-RPC message.
#[derive(Debug)]
pub enum JsonRpcMessage {
    Request(JsonRpcRequest),
    Response(JsonRpcResponse),
    Notification(JsonRpcNotification),
    Error(JsonRpcError),
}

} // verus!
