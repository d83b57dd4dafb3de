//! The `server/discover` request.

use vstd::prelude::*;
use crate::text::owned;
use crate::v2026_07_28::meta::RequestMetaObject;
use crate::v2026_07_28::json_rpc::RequestParams;

verus! {

/// Method string of the discover request.
pub const SERVER_DISCOVER_METHOD: &'static str = "server/discover";

/// A `server/discover` request: the method and the request parameters.
#[derive(Debug)]
pub struct DiscoverRequest {
    /// Always `server/discover`.
    pub method: String,
    pub params: RequestParams,
}

impl DiscoverRequest {
    /// A discover request carrying the required `_meta`.
    pub fn new(meta: RequestMetaObject) -> (r: Self)
        ensures
            r.method@ == SERVER_DISCOVER_METHOD@,
            r.params.meta == meta,
            r.params.other@.len() == 0,
    {
        DiscoverRequest { method: owned(SERVER_DISCOVER_METHOD), params: RequestParams::new(meta) }
    }

    /// The same request with `params` in place of its parameters.
    pub fn with_params(self, params: RequestParams) -> (r: Self)
        ensures
            r.method == self.method,
            r.params == params,
    {
        DiscoverRequest { params, ..self }
    }
}

} // verus!
