//! Edge request router.
//!
//! Resolves an incoming request URL against a key-value-backed routing table
//! and decides whether to answer with an HTTP redirect or to proxy the origin
//! response through a cache.  The crate holds the resolution and decision
//! engine: the versioned compact text encoding of routing entries, the
//! two-tier key lookup (exact path match falling back to a domain-wide
//! match), the redirect/proxy decision, and the cache-aside fetch plan.
//! The host-bound collaborators (key-value store, HTTP cache, outbound
//! fetch) stay outside; the library only consumes their results.

pub mod codec;
pub mod decide;
pub mod keys;
pub mod resolver;
pub mod route;
pub mod serve;

pub use codec::DecodeError;
pub use codec::RoutingValue;
pub use decide::Directive;
pub use keys::KeyError;
pub use keys::RequestKeys;
