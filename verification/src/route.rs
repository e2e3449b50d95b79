//! The top of the engine: from the two lookup tiers' raw results and the
//! original request path to the decided directive.

use vstd::prelude::*;

use crate::codec::DecodeError;
use crate::decide::decide;
use crate::decide::decide_spec;
use crate::decide::Directive;
use crate::decide::DirectiveView;
use crate::resolver::raw_view;
use crate::resolver::resolve;
use crate::resolver::resolve_spec;

verus! {

/// What the engine decides for one request, given the raw results of the
/// two lookup tiers and the original request path: `Ok(None)` is a clean
/// miss (the caller answers 404 with an empty body), `Ok(Some(d))` the
/// directive to carry out, and a decode failure a hard error.
pub open spec fn route_spec(
    first: Option<Seq<char>>,
    second: Option<Seq<char>>,
    original_path: Seq<char>,
) -> Result<Option<DirectiveView>, DecodeError> {
    match resolve_spec(first, second) {
        Ok(Some(v)) => Ok(Some(decide_spec(v, original_path))),
        Ok(None) => Ok(None),
        Err(e) => Err(e),
    }
}

/// Resolve the two lookup results and decide the directive in one step.
///
/// As with [`resolve`], the caller performs the domain-wide lookup only
/// when the path-specific one missed, and may pass `None` for a lookup it
/// skipped.
pub fn route(first: Option<String>, second: Option<String>, original_path: &str) -> (r: Result<
    Option<Directive>,
    DecodeError,
>)
    ensures
        match r {
            Ok(Some(d)) => route_spec(raw_view(first), raw_view(second), original_path@) == Ok::<
                Option<DirectiveView>,
                DecodeError,
            >(Some(d@)),
            Ok(None) => route_spec(raw_view(first), raw_view(second), original_path@) == Ok::<
                Option<DirectiveView>,
                DecodeError,
            >(None),
            Err(e) => route_spec(raw_view(first), raw_view(second), original_path@) == Err::<
                Option<DirectiveView>,
                DecodeError,
            >(e),
        },
{
    let value = match resolve(first, second) {
        Ok(Some(v)) => v,
        Ok(None) => {
            return Ok(None);
        },
        Err(e) => {
            return Err(e);
        },
    };
    Ok(Some(decide(value, original_path)))
}

} // verus!
