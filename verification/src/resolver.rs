//! The resolver: the two-tier lookup that turns the key-value store's raw
//! answers into a decoded routing entry, a clean miss, or a hard error.
//!
//! The match-path key is consulted first; the match-all key only when the
//! first tier misses.  The lookups themselves are the host's asynchronous
//! work; the resolver consumes their results.

use vstd::prelude::*;

use crate::codec::decode;
use crate::codec::decode_spec;
use crate::codec::DecodeError;
use crate::codec::RoutingValue;
use crate::codec::RoutingValueView;

verus! {

/// Spec image of a raw lookup result.
pub open spec fn raw_view(o: Option<String>) -> Option<Seq<char>> {
    match o {
        Some(s) => Some(s@),
        None => None,
    }
}

/// What resolution yields from the two tiers' raw results: the
/// path-specific tier decides whenever it holds an entry; the domain-wide
/// tier only when the first missed; a miss at both tiers is a legitimate
/// "not found"; and a malformed entry at the deciding tier is a hard
/// error, distinct from a miss.
pub open spec fn resolve_spec(first: Option<Seq<char>>, second: Option<Seq<char>>) -> Result<
    Option<RoutingValueView>,
    DecodeError,
> {
    match first {
        Some(raw) => match decode_spec(raw) {
            Ok(v) => Ok(Some(v)),
            Err(e) => Err(e),
        },
        None => match second {
            Some(raw) => match decode_spec(raw) {
                Ok(v) => Ok(Some(v)),
                Err(e) => Err(e),
            },
            None => Ok(None),
        },
    }
}

/// Resolve a request from the raw results of the two lookup tiers.
///
/// `first` is what the key-value store returned for the match-path key,
/// `second` what it returned for the match-all key.  The caller performs
/// the second lookup only when the first missed; since the result ignores
/// `second` whenever `first` holds an entry, passing `None` for a skipped
/// lookup is equivalent.
pub fn resolve(first: Option<String>, second: Option<String>) -> (r: Result<
    Option<RoutingValue>,
    DecodeError,
>)
    ensures
        match r {
            Ok(Some(v)) => resolve_spec(raw_view(first), raw_view(second)) == Ok::<
                Option<RoutingValueView>,
                DecodeError,
            >(Some(v@)),
            Ok(None) => resolve_spec(raw_view(first), raw_view(second)) == Ok::<
                Option<RoutingValueView>,
                DecodeError,
            >(None),
            Err(e) => resolve_spec(raw_view(first), raw_view(second)) == Err::<
                Option<RoutingValueView>,
                DecodeError,
            >(e),
        },
{
    let raw = match first {
        Some(s) => s,
        None => match second {
            Some(s) => s,
            None => {
                return Ok(None);
            },
        },
    };
    match decode(raw.as_str()) {
        Ok(v) => Ok(Some(v)),
        Err(e) => Err(e),
    }
}

/// Precedence: whenever the match-path tier holds an entry, resolution is
/// decided by that entry alone — the domain-wide tier's result, whatever
/// it is, does not affect the outcome.
pub proof fn lemma_path_precedence(
    raw: Seq<char>,
    second: Option<Seq<char>>,
    other: Option<Seq<char>>,
)
    ensures
        resolve_spec(Some(raw), second) == resolve_spec(Some(raw), other),
        decode_spec(raw) matches Ok(v) ==> resolve_spec(Some(raw), second) == Ok::<
            Option<RoutingValueView>,
            DecodeError,
        >(Some(v)),
{
}

/// Fallback: when the match-path tier misses, resolution is decided by the
/// domain-wide tier's entry.
pub proof fn lemma_domain_fallback(raw: Seq<char>)
    ensures
        decode_spec(raw) matches Ok(v) ==> resolve_spec(None, Some(raw)) == Ok::<
            Option<RoutingValueView>,
            DecodeError,
        >(Some(v)),
{
}

/// A miss at both tiers resolves to "not found", not to an error.
pub proof fn lemma_both_miss()
    ensures
        resolve_spec(None, None) == Ok::<Option<RoutingValueView>, DecodeError>(None),
{
}

} // verus!
