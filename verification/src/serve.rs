//! The cache-aside fetcher's plan: which collaborator call comes next
//! while a proxy directive is served.
//!
//! The cache is always consulted first; the origin is fetched only on a
//! miss; and a fetched response is stored under the origin URL before the
//! request is answered.  The calls themselves (cache match, origin fetch,
//! cache put) are the host's asynchronous work; this module decides each
//! step from the previous call's result.  The response type `R` is opaque
//! here: the host's response objects are passed through unmodified.

use vstd::prelude::*;

verus! {

/// What the fetcher does next, once the cache was consulted for the
/// origin URL.
#[derive(Clone, Debug, PartialEq, Eq)]
pub enum AfterCache<R> {
    /// The cache held a response: answer with it, fetching nothing.
    Respond(R),
    /// The cache missed: fetch this URL from the origin.
    FetchOrigin(String),
}

/// The cache-aside decision: a hit is answered from the cache unchanged;
/// a miss leads to an origin fetch of exactly the requested URL.
pub open spec fn after_cache_spec<R>(origin_url: String, cached: Option<R>) -> AfterCache<R> {
    match cached {
        Some(resp) => AfterCache::Respond(resp),
        None => AfterCache::FetchOrigin(origin_url),
    }
}

/// First step of serving a proxy directive: decide from the cache's
/// answer whether to respond at once or to fetch from the origin.
pub fn on_cache_result<R>(origin_url: String, cached: Option<R>) -> (step: AfterCache<R>)
    ensures
        step == after_cache_spec(origin_url, cached),
{
    match cached {
        Some(resp) => AfterCache::Respond(resp),
        None => AfterCache::FetchOrigin(origin_url),
    }
}

/// The write-then-respond plan for a freshly fetched response.
#[derive(Clone, Debug, PartialEq, Eq)]
pub struct StorePlan<R> {
    /// The cache key to store under: the origin URL the response came from.
    pub cache_key: String,
    /// The response, both to store and to return.
    pub response: R,
}

/// The plan after a successful fetch: store the response under the origin
/// URL it was fetched from, then return that same response.
pub open spec fn store_plan_spec<R>(origin_url: String, response: R) -> StorePlan<R> {
    StorePlan { cache_key: origin_url, response }
}

/// Second step, on the miss path: plan the cache write for the fetched
/// response.  The write must be attempted before the response is handed
/// back, but the response is returned whether or not the write succeeds.
pub fn on_fetch_result<R>(origin_url: String, response: R) -> (plan: StorePlan<R>)
    ensures
        plan == store_plan_spec(origin_url, response),
{
    StorePlan { cache_key: origin_url, response }
}

/// The cache-aside law: a hit is answered with the cached response and
/// triggers no origin fetch; a miss triggers a fetch of exactly the
/// origin URL, and the fetched response is both stored under that same
/// URL and returned unchanged.
pub proof fn lemma_cache_aside<R>(origin_url: String, cached: Option<R>, fetched: R)
    ensures
        cached matches Some(resp) ==> after_cache_spec(origin_url, cached)
            == AfterCache::<R>::Respond(resp),
        cached is None ==> after_cache_spec(origin_url, cached) == AfterCache::<R>::FetchOrigin(
            origin_url,
        ),
        store_plan_spec(origin_url, fetched).cache_key == origin_url,
        store_plan_spec(origin_url, fetched).response == fetched,
{
}

} // verus!
