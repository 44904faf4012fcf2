//! URL parsing and relative-reference resolution.
//!
//! Parsing is delegated to the `url` crate.  What a given URL string parses
//! to is a fixed function of that string, so the components are named by
//! uninterpreted spec functions, and every contract above this module is
//! stated in terms of those names.

use vstd::prelude::*;

verus! {

/// Whether `url::Url::parse` accepts `s` as an absolute URL.
pub uninterp spec fn url_ok(s: Seq<char>) -> bool;

/// The scheme of the parsed URL.
pub uninterp spec fn url_scheme(s: Seq<char>) -> Seq<char>;

/// The domain of the parsed URL, or the empty sequence when the host is
/// missing or is not a domain name.
pub uninterp spec fn url_host(s: Seq<char>) -> Seq<char>;

/// The path of the parsed URL.
pub uninterp spec fn url_path(s: Seq<char>) -> Seq<char>;

/// The ASCII serialization of the parsed URL's origin.
pub uninterp spec fn url_origin(s: Seq<char>) -> Seq<char>;

/// The absolute URL that `href` resolves to against the base `base`, or
/// `None` when `base` does not parse or the join fails.
pub uninterp spec fn join_of(base: Seq<char>, href: Seq<char>) -> Option<Seq<char>>;

/// A URL string fails to parse as an absolute URL.
#[derive(Debug, PartialEq, Eq, Structural)]
pub struct MalformedUrl;

/// The components of a successfully parsed absolute URL, held as plain
/// strings so the scope policy can be verified over them.
#[derive(Debug)]
pub struct ParsedUrl {
    /// The URL string exactly as it was given.
    pub text: String,
    /// The scheme, such as `https`.
    pub scheme: String,
    /// The domain, or empty when the host is missing or not a domain name.
    pub host: String,
    /// The path, starting with `/` for URLs that have one.
    pub path: String,
    /// The origin in its ASCII serialization, such as `https://example.com`.
    pub origin: String,
}

/// Relies on `url::Url::parse` and the accessors `Url::scheme`, `Url::domain`,
/// `Url::path` and `Origin::ascii_serialization`: whether a string parses and
/// each resulting component depend on the string alone.
#[verifier::external_body]
fn parse_components(url: &str) -> (r: Option<ParsedUrl>)
    ensures
        r is Some <==> url_ok(url@),
        r matches Some(p) ==> {
            &&& p.text@ == url@
            &&& p.scheme@ == url_scheme(url@)
            &&& p.host@ == url_host(url@)
            &&& p.path@ == url_path(url@)
            &&& p.origin@ == url_origin(url@)
        },
{
    match url::Url::parse(url) {
        Ok(u) => Some(ParsedUrl {
            text: url.to_string(),
            scheme: u.scheme().to_string(),
            host: u.domain().unwrap_or("").to_string(),
            path: u.path().to_string(),
            origin: u.origin().ascii_serialization(),
        }),
        Err(_) => None,
    }
}

/// Relies on `url::Url::parse` and `url::Url::join`: standard relative
/// reference resolution of `href` against `base` depends on the two strings
/// alone.
#[verifier::external_body]
fn join_absolute(base: &str, href: &str) -> (r: Option<String>)
    ensures
        r is Some <==> join_of(base@, href@) is Some,
        r matches Some(u) ==> join_of(base@, href@) == Some(u@),
{
    match url::Url::parse(base).and_then(|b| b.join(href)) {
        Ok(u) => Some(String::from(u)),
        Err(_) => None,
    }
}

/// Parse `url` as an absolute URL, exposing its scheme, host, path and
/// origin; fails exactly when the string is not an absolute URL.
pub fn parse_url(url: &str) -> (r: Result<ParsedUrl, MalformedUrl>)
    ensures
        r is Ok <==> url_ok(url@),
        r matches Ok(p) ==> {
            &&& p.text@ == url@
            &&& p.scheme@ == url_scheme(url@)
            &&& p.host@ == url_host(url@)
            &&& p.path@ == url_path(url@)
            &&& p.origin@ == url_origin(url@)
        },
{
    match parse_components(url) {
        Some(p) => Ok(p),
        None => Err(MalformedUrl),
    }
}

/// Resolve the reference `href` against the base URL `base`, following
/// standard relative-reference resolution; the result is always an absolute
/// URL string.  Fails exactly when `base` does not parse or the join fails.
pub fn resolve(base: &str, href: &str) -> (r: Result<String, MalformedUrl>)
    ensures
        r is Ok <==> join_of(base@, href@) is Some,
        r matches Ok(u) ==> join_of(base@, href@) == Some(u@),
{
    match join_absolute(base, href) {
        Some(u) => Ok(u),
        None => Err(MalformedUrl),
    }
}

/// Resolution is a pure function: the same `(base, href)` pair always
/// resolves to the same absolute URL, no matter when or how often it is
/// resolved.
pub proof fn lemma_resolution_deterministic(
    base1: Seq<char>,
    href1: Seq<char>,
    base2: Seq<char>,
    href2: Seq<char>,
)
    requires
        base1 == base2,
        href1 == href2,
    ensures
        join_of(base1, href1) == join_of(base2, href2),
{
}

} // verus!
