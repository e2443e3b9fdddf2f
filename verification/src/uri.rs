//! Addresses: the URI type of the `http` crate and what the library reads
//! from one.

use vstd::prelude::*;

verus! {

/// `http::Uri`: a parsed URI, carried as it is.
#[verifier::external_type_specification]
#[verifier::external_body]
pub struct ExUri(http::Uri);

/// `http::uri::InvalidUri`: why a text is no URI.
#[verifier::external_type_specification]
#[verifier::external_body]
pub struct ExInvalidUri(http::uri::InvalidUri);

/// The URI that a text parses to; `None` where the text is no URI.
pub uninterp spec fn uri_parsed(text: Seq<char>) -> Option<http::Uri>;

/// The host of a URI's authority; `None` for a URI without an authority.
pub uninterp spec fn uri_host(uri: http::Uri) -> Option<Seq<char>>;

/// The port of a URI's authority as a 16-bit number; `None` where the URI
/// names no port or names one that does not fit.
pub uninterp spec fn uri_port(uri: http::Uri) -> Option<u16>;

/// The text that a URI renders to.
pub uninterp spec fn uri_text(uri: http::Uri) -> Seq<char>;

/// `<http::Uri as FromStr>::from_str`: parses a text as a URI, or says that
/// it is none.
#[verifier::external_body]
pub(crate) fn parse_uri(text: &str) -> (parsed: Result<http::Uri, http::uri::InvalidUri>)
    ensures
        parsed is Ok <==> uri_parsed(text@) is Some,
        parsed matches Ok(uri) ==> uri_parsed(text@) == Some(uri),
{
    text.parse::<http::Uri>()
}

/// `http::Uri::host`, copied out as owned text: the host of the authority,
/// present exactly when the URI has one.
#[verifier::external_body]
pub(crate) fn host_of(uri: &http::Uri) -> (host: Option<String>)
    ensures
        host is Some <==> uri_host(*uri) is Some,
        host matches Some(h) ==> uri_host(*uri) == Some(h@),
{
    uri.host().map(|h| h.to_string())
}

/// `http::Uri::port_u16`: the port of the authority as a number.
#[verifier::external_body]
pub(crate) fn port_of(uri: &http::Uri) -> (port: Option<u16>)
    ensures
        port == uri_port(*uri),
{
    uri.port_u16()
}

/// `<http::Uri as Display>::fmt` through `to_string`: the URI as text.
#[verifier::external_body]
pub(crate) fn render_uri(uri: &http::Uri) -> (text: String)
    ensures
        text@ == uri_text(*uri),
{
    uri.to_string()
}

} // verus!
