//! The JSON-RPC 2.0 error object and request id, as the `turul-rpc` crate
//! defines them and as this library fills them in. The transport layer
//! converts them into that crate's own types.

use vstd::prelude::*;
use crate::json::Json;
use crate::text::owned;

verus! {

/// Code of the standard JSON-RPC "Invalid params" error.
pub const INVALID_PARAMS_CODE: i64 = -32602;

/// Code of the standard JSON-RPC "Internal error" error.
pub const INTERNAL_ERROR_CODE: i64 = -32603;

/// A JSON-RPC error object: `code`, `message` and optional `data`.
#[derive(Debug)]
pub struct JsonRpcErrorObject {
    pub code: i64,
    pub message: String,
    pub data: Option<Json>,
}

/// Whether `code` lies in the JSON-RPC implementation-defined server-error range.
pub open spec fn is_server_error_code(code: i64) -> bool {
    -32099 <= code <= -32000
}

impl JsonRpcErrorObject {
    /// "Invalid params" (`-32602`) with the given message and no data.
    pub fn invalid_params(message: &str) -> (r: JsonRpcErrorObject)
        ensures
            r.code == INVALID_PARAMS_CODE,
            r.message@ == message@,
            r.data is None,
    {
        JsonRpcErrorObject { code: INVALID_PARAMS_CODE, message: owned(message), data: None }
    }

    /// "Internal error" (`-32603`) with the given message, or the standard
    /// text `Internal error` when there is none, and no data.
    pub fn internal_error(message: Option<String>) -> (r: JsonRpcErrorObject)
        ensures
            r.code == INTERNAL_ERROR_CODE,
            message matches Some(m) ==> r.message@ == m@,
            message is None ==> r.message@ == "Internal error"@,
            r.data is None,
    {
        let m = match message {
            Some(m) => m,
            None => owned("Internal error"),
        };
        JsonRpcErrorObject { code: INTERNAL_ERROR_CODE, message: m, data: None }
    }

    /// A server error with the given code (which must lie in
    /// `-32099..=-32000`), message and data.
    pub fn server_error(code: i64, message: &str, data: Option<Json>) -> (r: JsonRpcErrorObject)
        requires
            is_server_error_code(code),
        ensures
            r.code == code,
            r.message@ == message@,
            r.data == data,
    {
        JsonRpcErrorObject { code, message: owned(message), data }
    }
}

/// A JSON-RPC request id: a string, an integer or null.
#[derive(Debug, Clone, PartialEq, Eq)]
pub enum RequestId {
    String(String),
    Number(i64),
    Null,
}

} // verus!
