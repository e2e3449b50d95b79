//! The key builder: derives the two candidate lookup keys from the
//! incoming request's URL.
//!
//! The match-path key is the domain followed by the request path with a
//! guaranteed trailing slash; the match-all key is the bare domain.  URL
//! parsing itself is delegated to the `url` crate; key construction from
//! the parsed pieces is plain string logic and is verified here.

use vstd::prelude::*;
use vstd::string::*;

verus! {

/// Why no lookup keys could be built.
#[derive(Clone, Copy, Debug, PartialEq, Eq)]
pub enum KeyError {
    /// The request URL cannot be parsed, or its host is not a domain name.
    InvalidUrl,
}

/// The match-path lookup key: `domain` followed by `path`, with a trailing
/// slash appended when the path does not already end in one.
pub open spec fn path_key_spec(domain: Seq<char>, path: Seq<char>) -> Seq<char> {
    if path.len() > 0 && path.last() == '/' {
        domain + path
    } else {
        domain + path + seq!['/']
    }
}

/// Build the two candidate lookup keys from an already-split URL: the
/// match-path key (domain + trailing-slash-normalized path), then the
/// match-all key (the bare domain).
pub fn make_keys(domain: &str, path: &str) -> (r: (String, String))
    ensures
        r.0@ == path_key_spec(domain@, path@),
        r.1@ == domain@,
{
    proof {
        reveal_strlit("/");
    }
    let n = path.unicode_len();
    let mut key = String::from_str(domain);
    key.append(path);
    if n == 0 || path.get_char(n - 1) != '/' {
        key.append("/");
    }
    proof {
        assert(key@ =~= path_key_spec(domain@, path@));
    }
    (key, String::from_str(domain))
}

/// The domain the URL parser extracts from a URL string: its host, when
/// that host is a domain name rather than an IP address; nothing when the
/// string is not a valid URL or its host is no domain.  Parsing depends on
/// the string alone, so the result bears a name rather than a definition.
pub uninterp spec fn url_domain_of(s: Seq<char>) -> Option<Seq<char>>;

/// The path the URL parser extracts from a URL string, as it normalizes
/// it.  Meaningful where `url_domain_of` finds a domain.
pub uninterp spec fn url_path_of(s: Seq<char>) -> Seq<char>;

/// Relies on `url::Url::parse`, `url::Url::domain` and `url::Url::path`:
/// parsing a URL string and reading the host and path of the result are
/// deterministic in the string alone; `domain` is `None` exactly when the
/// string does not parse or its host is not a domain name.
#[verifier::external_body]
fn split_url(s: &str) -> (r: Option<(String, String)>)
    ensures
        match r {
            Some(parts) => url_domain_of(s@) == Some(parts.0@) && parts.1@ == url_path_of(s@),
            None => url_domain_of(s@) is None,
        },
{
    match url::Url::parse(s) {
        Ok(u) => match u.domain() {
            Some(d) => Some((String::from(d), String::from(u.path()))),
            None => None,
        },
        Err(_) => None,
    }
}

/// The two candidate lookup keys for one request, together with the
/// request path they were derived from (the decider later needs that path
/// when a redirect appends it).
#[derive(Clone, Debug, PartialEq, Eq)]
pub struct RequestKeys {
    /// The match-path key: domain + trailing-slash-normalized path.
    pub path_key: String,
    /// The match-all key: the bare domain.
    pub domain_key: String,
    /// The request path, as the URL parser normalized it.
    pub path: String,
}

/// Derive the candidate lookup keys from a request URL string.
///
/// Fails with [`KeyError::InvalidUrl`] exactly when the URL parser finds
/// no domain; otherwise the match-all key is the domain the parser
/// extracted from `request_url`, the extracted path is carried along
/// unchanged, and the match-path key is built from the two exactly as
/// [`make_keys`] states.
pub fn build_keys(request_url: &str) -> (r: Result<RequestKeys, KeyError>)
    ensures
        match r {
            Ok(k) => url_domain_of(request_url@) == Some(k.domain_key@) && k.path@ == url_path_of(
                request_url@,
            ) && k.path_key@ == path_key_spec(k.domain_key@, k.path@),
            Err(e) => e == KeyError::InvalidUrl && url_domain_of(request_url@) is None,
        },
{
    let parts = match split_url(request_url) {
        Some(p) => p,
        None => {
            return Err(KeyError::InvalidUrl);
        },
    };
    let keys = make_keys(parts.0.as_str(), parts.1.as_str());
    Ok(RequestKeys { path_key: keys.0, domain_key: keys.1, path: parts.1 })
}

} // verus!
