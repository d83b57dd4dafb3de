//! The `params` object of a request: its typed `_meta` and the method's own
//! parameters.

use vstd::prelude::*;
use crate::json::{Json, keys_distinct, inserted, object_insert};
use crate::text::owned;
use crate::v2026_07_28::meta::{RequestMetaObject, ProgressToken};

verus! {

/// The JSON-RPC version string.
pub const JSONRPC_VERSION: &'static str = "2.0";

/// A request's `params`: the required `_meta` and the method's parameters.
#[derive(Debug)]
pub struct RequestParams {
    pub meta: RequestMetaObject,
    pub other: Vec<(String, Json)>,
}

impl RequestParams {
    /// Parameters carrying `meta` and no method parameters yet.
    pub fn new(meta: RequestMetaObject) -> (r: Self)
        ensures
            r.meta == meta,
            r.other@.len() == 0,
    {
        RequestParams { meta, other: Vec::new() }
    }

    /// The same parameters with the method parameter `key` set to `value`.
    pub fn with(self, key: &str, value: Json) -> (r: Self)
        ensures
            r.meta == self.meta,
            inserted(self.other@, r.other@, key@, value),
            keys_distinct(self.other@) ==> keys_distinct(r.other@),
    {
        let mut p = self;
        object_insert(&mut p.other, owned(key), value);
        p
    }

    /// The progress token of the request, if its `_meta` carries one.
    pub fn progress_token(&self) -> (r: Option<&ProgressToken>)
        ensures
            match self.meta.progress_token {
                Some(t) => r == Some(&t),
                None => r is None,
            },
    {
        match &self.meta.progress_token {
            Some(t) => Some(t),
            None => None,
        }
    }
}

} // verus!
