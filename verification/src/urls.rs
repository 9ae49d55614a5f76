//! Trusted boundary to the `url` crate: absolute-URL parsing and RFC 3986
//! relative resolution, the two operations every request path goes through.
use vstd::prelude::*;

verus! {

#[verifier::external_type_specification]
#[verifier::external_body]
pub struct ExUrl(url::Url);

#[verifier::external_type_specification]
#[verifier::external_body]
pub struct ExParseError(url::ParseError);

/// The serialized absolute URL that a string parses to, or `None` where it
/// does not parse as an absolute URL.
pub uninterp spec fn parsed_url(s: Seq<char>) -> Option<Seq<char>>;

/// The serialized absolute URL that a relative reference resolves to against
/// a base URL (RFC 3986 resolution), or `None` where resolution fails.
pub uninterp spec fn joined_url(base: Seq<char>, rel: Seq<char>) -> Option<Seq<char>>;

/// The serialized form of a parsed URL (what `Url::as_str` returns).
pub uninterp spec fn url_str(u: url::Url) -> Seq<char>;

/// Relies on `url::Url::parse`: parses an absolute URL; the outcome is a
/// function of the input string alone.
#[verifier::external_body]
pub(crate) fn parse_url(input: &str) -> (r: Result<url::Url, url::ParseError>)
    ensures
        r is Ok <==> parsed_url(input@) is Some,
        r matches Ok(u) ==> url_str(u) == parsed_url(input@)->Some_0,
{
    url::Url::parse(input)
}

/// Relies on `url::Url::join`: resolves a (possibly relative) reference
/// against this URL per RFC 3986; the outcome is a function of the base's
/// serialization and the reference alone.
#[verifier::external_body]
pub(crate) fn join_url(base: &url::Url, input: &str) -> (r: Result<url::Url, url::ParseError>)
    ensures
        r is Ok <==> joined_url(url_str(*base), input@) is Some,
        r matches Ok(u) ==> url_str(u) == joined_url(url_str(*base), input@)->Some_0,
{
    base.join(input)
}

} // verus!
