//! Cache-control hints of results: the sharing scope and the time to live.

use vstd::prelude::*;

verus! {

/// Who may cache a result.
#[derive(Debug, Clone, Copy, PartialEq, Eq, Hash, Structural)]
pub enum CacheScope {
    /// Any client or intermediary may cache it and serve it to any user.
    Public,
    /// Only the requesting user's client may cache it.
    Private,
}

/// The wire string of a scope.
pub open spec fn cache_scope_text(s: CacheScope) -> Seq<char> {
    match s {
        CacheScope::Public => "public"@,
        CacheScope::Private => "private"@,
    }
}

impl CacheScope {
    /// The wire string of the scope: `public` or `private`.
    pub fn as_str(&self) -> (r: &'static str)
        ensures
            r@ == cache_scope_text(*self),
    {
        match self {
            CacheScope::Public => "public",
            CacheScope::Private => "private",
        }
    }
}

/// The two scopes have different wire strings.
pub proof fn lemma_cache_scope_text_injective(a: CacheScope, b: CacheScope)
    ensures
        cache_scope_text(a) == cache_scope_text(b) ==> a == b,
{
    reveal_strlit("public");
    reveal_strlit("private");
    if a != b {
        assert(cache_scope_text(a).len() != cache_scope_text(b).len());
    }
}

/// The bit pattern of the `f64` value `0.0`.
pub const TTL_ZERO_BITS: u64 = 0u64;

/// The bit pattern of the `f64` value `60000.0` (one minute in milliseconds).
pub const TTL_ONE_MINUTE_BITS: u64 = 0x40ed_4c00_0000_0000u64;

/// The cache-control hint a result carries: how long a client may keep it
/// (in milliseconds, a non-negative number held as the IEEE-754 bit pattern
/// of its `f64` value) and who may share it.
#[derive(Debug, Clone, Copy, PartialEq, Eq, Structural)]
pub struct CacheableResult {
    pub ttl_ms: u64,
    pub cache_scope: CacheScope,
}

impl CacheableResult {
    /// The hint with both required fields.
    pub fn new(ttl_ms: u64, cache_scope: CacheScope) -> (r: Self)
        ensures
            r.ttl_ms == ttl_ms,
            r.cache_scope == cache_scope,
    {
        CacheableResult { ttl_ms, cache_scope }
    }

    /// A public result that is stale at once (a time to live of `0.0`).
    pub fn stale_public() -> (r: Self)
        ensures
            r.ttl_ms == TTL_ZERO_BITS,
            r.cache_scope == CacheScope::Public,
    {
        CacheableResult::new(TTL_ZERO_BITS, CacheScope::Public)
    }

    /// A private result that a client may keep for a minute (a time to live
    /// of `60000.0`).
    pub fn private_60s() -> (r: Self)
        ensures
            r.ttl_ms == TTL_ONE_MINUTE_BITS,
            r.cache_scope == CacheScope::Private,
    {
        CacheableResult::new(TTL_ONE_MINUTE_BITS, CacheScope::Private)
    }
}

} // verus!
