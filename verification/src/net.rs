//! Endpoint URL checks, built on the `url` crate behind one trusted
//! wrapper.

use vstd::prelude::*;

verus! {

/// What `url::Url::parse` yields for a given input: `None` when the input
/// does not parse as an absolute URL, otherwise the URL's scheme and path.
pub uninterp spec fn url_parts(s: Seq<char>) -> Option<(Seq<char>, Seq<char>)>;

/// Relies on `url::Url::parse`, `url::Url::scheme` and `url::Url::path`:
/// parsing is a function of the input string alone; `scheme` returns the
/// parsed URL's scheme name and `path` its path component.
#[verifier::external_body]
pub fn parse_scheme_and_path(endpoint: &str) -> (r: Option<(String, String)>)
    ensures
        r is Some <==> url_parts(endpoint@) is Some,
        r matches Some(parts) ==> url_parts(endpoint@) == Some((parts.0@, parts.1@)),
{
    match url::Url::parse(endpoint) {
        Ok(u) => Some((u.scheme().to_owned(), u.path().to_owned())),
        Err(_) => None,
    }
}

/// The endpoint parses as a URL with the HTTPS scheme.
pub open spec fn spec_is_https(s: Seq<char>) -> bool {
    url_parts(s) matches Some(parts) && parts.0 == "https"@
}

/// Returns `true` when the endpoint URL parses and uses HTTPS.
pub fn is_https_endpoint(endpoint: &str) -> (r: bool)
    ensures
        r == spec_is_https(endpoint@),
{
    match parse_scheme_and_path(endpoint) {
        Some(parts) => crate::text::str_eq(parts.0.as_str(), "https"),
        None => false,
    }
}

} // verus!
