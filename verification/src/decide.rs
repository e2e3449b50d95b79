//! The response decider: from a resolved routing entry and the original
//! request path to the one directive the request is answered with.
//!
//! The decision machine has exactly two outcomes, selected by the entry's
//! `fetch` flag: a redirect, whose status and target are fixed by the
//! other two flags, or a proxy-and-cache of the stored URL, which consults
//! no other flag and appends no path.

use vstd::prelude::*;
use vstd::string::*;

use crate::codec::RoutingValue;
use crate::codec::RoutingValueView;

verus! {

/// The decided outcome for one request.
#[derive(Clone, Debug, PartialEq, Eq)]
pub enum Directive {
    /// Answer with an HTTP redirect.
    Redirect { status: u16, target_url: String },
    /// Serve the stored origin URL through the cache-aside fetcher.
    ProxyAndCache { origin_url: String },
}

/// Mathematical image of a [`Directive`].
pub ghost enum DirectiveView {
    Redirect { status: int, target_url: Seq<char> },
    ProxyAndCache { origin_url: Seq<char> },
}

impl View for Directive {
    type V = DirectiveView;

    open spec fn view(&self) -> DirectiveView {
        match self {
            Directive::Redirect { status, target_url } => DirectiveView::Redirect {
                status: *status as int,
                target_url: target_url@,
            },
            Directive::ProxyAndCache { origin_url } => DirectiveView::ProxyAndCache {
                origin_url: origin_url@,
            },
        }
    }
}

/// The full decision rule.  With `fetch` set, the entry's URL is proxied
/// exactly as stored — `permanent` and `append_path` are not consulted and
/// no path is appended.  Without it, the answer is a redirect: status 301
/// when `permanent`, else 307, aimed at the stored URL with the original
/// request path appended verbatim exactly when `append_path` is set.
pub open spec fn decide_spec(v: RoutingValueView, original_path: Seq<char>) -> DirectiveView {
    if v.fetch {
        DirectiveView::ProxyAndCache { origin_url: v.url }
    } else {
        DirectiveView::Redirect {
            status: if v.permanent {
                301
            } else {
                307
            },
            target_url: if v.append_path {
                v.url + original_path
            } else {
                v.url
            },
        }
    }
}

/// Turn a resolved entry and the original request path into a directive.
pub fn decide(value: RoutingValue, original_path: &str) -> (d: Directive)
    ensures
        d@ == decide_spec(value@, original_path@),
{
    if value.fetch {
        Directive::ProxyAndCache { origin_url: value.url }
    } else {
        let status: u16 = if value.permanent {
            301
        } else {
            307
        };
        let target_url = if value.append_path {
            value.url.concat(original_path)
        } else {
            value.url
        };
        Directive::Redirect { status, target_url }
    }
}

/// Proxying consults only the stored URL: two entries with `fetch` set and
/// the same URL decide alike, whatever their `permanent` and `append_path`
/// flags and whatever the request path.
pub proof fn lemma_proxy_ignores_flags(
    a: RoutingValueView,
    b: RoutingValueView,
    p: Seq<char>,
    q: Seq<char>,
)
    requires
        a.fetch,
        b.fetch,
        a.url == b.url,
    ensures
        decide_spec(a, p) == decide_spec(b, q),
        decide_spec(a, p) == (DirectiveView::ProxyAndCache { origin_url: a.url }),
{
}

} // verus!
