//! Ping: its request, the empty result it is answered with, and the empty
//! parameters of a request that takes none.

use vstd::prelude::*;
use crate::json::Json;
use crate::text::owned;

verus! {

/// A `ping` request.
#[derive(Debug)]
pub struct PingRequest {
    pub method: String,
    pub params: Option<Json>,
}

impl PingRequest {
    /// A `ping` request, with no parameters.
    pub fn new() -> (r: Self)
        ensures
            r.method@ == "ping"@,
            r.params is None,
    {
        PingRequest { method: owned("ping"), params: None }
    }
}

impl Default for PingRequest {
    fn default() -> (r: Self)
        ensures
            r.method@ == "ping"@,
            r.params is None,
    {
        PingRequest::new()
    }
}

/// The result of an operation that answers nothing but success.
#[derive(Debug)]
pub struct EmptyResult {
    pub meta: Option<Vec<(String, Json)>>,
}

impl EmptyResult {
    /// The empty result, with no `_meta`.
    pub fn new() -> (r: Self)
        ensures
            r.meta is None,
    {
        EmptyResult { meta: None }
    }

    /// The empty result with `meta` as its `_meta`.
    pub fn with_meta(self, meta: Vec<(String, Json)>) -> (r: Self)
        ensures
            r.meta == Some(meta),
    {
        EmptyResult { meta: Some(meta) }
    }
}

impl Default for EmptyResult {
    fn default() -> (r: Self)
        ensures
            r.meta is None,
    {
        EmptyResult::new()
    }
}

/// Parameters of a request that takes none.
#[derive(Debug, Clone, Default)]
pub struct EmptyParams;

} // verus!
