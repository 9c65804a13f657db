use vstd::prelude::*;

use crate::text::{eq_ignore_case, equals_ignore_case};

verus! {

/// The scheme of the URL that `url::Url::parse` makes of the text, if it parses.
pub uninterp spec fn url_scheme_of(s: Seq<char>) -> Option<Seq<char>>;

/// The text of the URL that `url::Url::join` resolves `name` to against the
/// URL parsed from `base`, if both steps succeed.
pub uninterp spec fn url_joined(base: Seq<char>, name: Seq<char>) -> Option<Seq<char>>;

/// The text of the URL parsed from `url` once `url::Url::set_query` has set
/// its query to `query`, if `url` parses.
pub uninterp spec fn url_with_query(url: Seq<char>, query: Seq<char>) -> Option<Seq<char>>;

/// Relies on `url::Url::parse` to read the text as a URL and on
/// `url::Url::scheme` for its scheme.
#[verifier::external_body]
fn parse_scheme(s: &str) -> (r: Option<String>)
    ensures
        match r {
            Some(x) => url_scheme_of(s@) == Some(x@),
            None => url_scheme_of(s@) is None,
        },
{
    match url::Url::parse(s) {
        Ok(u) => Some(u.scheme().to_string()),
        Err(_) => None,
    }
}

/// Relies on `url::Url::join` to resolve a relative reference against the base
/// URL that `url::Url::parse` reads; the result is the joined URL's text.
#[verifier::external_body]
pub(crate) fn join_url(base: &str, name: &str) -> (r: Option<String>)
    ensures
        match r {
            Some(x) => url_joined(base@, name@) == Some(x@),
            None => url_joined(base@, name@) is None,
        },
{
    match url::Url::parse(base) {
        Ok(u) => match u.join(name) {
            Ok(j) => Some(j.to_string()),
            Err(_) => None,
        },
        Err(_) => None,
    }
}

/// Relies on `url::Url::set_query` to replace the query of the URL that
/// `url::Url::parse` reads; the result is the URL's text.
#[verifier::external_body]
pub(crate) fn set_url_query(url: &str, query: &str) -> (r: Option<String>)
    ensures
        match r {
            Some(x) => url_with_query(url@, query@) == Some(x@),
            None => url_with_query(url@, query@) is None,
        },
{
    match url::Url::parse(url) {
        Ok(mut u) => {
            u.set_query(Some(query));
            Some(u.to_string())
        },
        Err(_) => None,
    }
}

/// The text is an HTTP or HTTPS URL: it parses, and its scheme is "http" or
/// "https", ignoring ASCII case.
pub open spec fn is_http(s: Seq<char>) -> bool {
    match url_scheme_of(s) {
        Some(sc) => eq_ignore_case(sc, "http"@) || eq_ignore_case(sc, "https"@),
        None => false,
    }
}

/// Whether the text is an HTTP or HTTPS URL.
pub fn is_http_url(s: &str) -> (r: bool)
    ensures
        r == is_http(s@),
{
    match parse_scheme(s) {
        Some(sc) => equals_ignore_case(sc.as_str(), "http") || equals_ignore_case(
            sc.as_str(),
            "https",
        ),
        None => false,
    }
}

} // verus!
