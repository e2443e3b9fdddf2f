//! The header contract of a forwarded request: `Host` names the backend
//! and a `Forwarded` header says who forwarded for whom.

use crate::server::Server;
use crate::uri::{render_uri, uri_text};
use http::header::{HeaderMap, HeaderValue, InvalidHeaderValue, MaxSizeReached};
use vstd::prelude::*;
use vstd::string::StringExecFns;
use vstd::utf8::encode_utf8;

verus! {

/// `http::HeaderMap`: the headers of a request, carried as they are.
#[verifier::external_type_specification]
#[verifier::external_body]
#[verifier::reject_recursive_types(T)]
pub struct ExHeaderMap<T>(HeaderMap<T>);

/// `http::HeaderValue`: the value of one header.
#[verifier::external_type_specification]
#[verifier::external_body]
pub struct ExHeaderValue(HeaderValue);

/// `http::header::InvalidHeaderValue`: why a text is no header value.
#[verifier::external_type_specification]
#[verifier::external_body]
pub struct ExInvalidHeaderValue(InvalidHeaderValue);

/// `http::header::MaxSizeReached`: the header map took no further entry.
#[verifier::external_type_specification]
#[verifier::external_body]
pub struct ExMaxSizeReached(MaxSizeReached);

/// The bytes of a header value.
pub uninterp spec fn value_bytes(value: HeaderValue) -> Seq<u8>;

/// The bytes of the values that a header map stores in the entry whose
/// name, as the map holds it (in lower case), is exactly `name`: the first
/// value, then the appended ones in order. Empty for a text that is no
/// stored name, a spelling in other case included.
pub uninterp spec fn header_values(headers: HeaderMap<HeaderValue>, name: Seq<char>) -> Seq<Seq<u8>>;

/// The number of names that a header map stores, as `HeaderMap::keys_len`
/// counts them.
pub uninterp spec fn header_names(headers: HeaderMap<HeaderValue>) -> nat;

/// The number of stored names below which a header map takes a further
/// entry whatever state it is in.
pub open spec fn sure_room() -> nat {
    6554
}

/// Whether bytes can stand in a header value: each is a tab, or is neither
/// a control character nor DEL.
pub open spec fn is_header_text(bytes: Seq<u8>) -> bool {
    forall|i: int| 0 <= i < bytes.len() ==> (#[trigger] bytes[i] >= 32 && bytes[i] != 127) || bytes[i] == 9
}

/// `HeaderValue::from_str`: a header value with the bytes of `text`, made
/// exactly when every byte can stand in a header value.
#[verifier::external_body]
pub(crate) fn header_value(text: &str) -> (made: Result<HeaderValue, InvalidHeaderValue>)
    ensures
        made is Ok <==> is_header_text(encode_utf8(text@)),
        made matches Ok(value) ==> value_bytes(value) == encode_utf8(text@),
{
    HeaderValue::from_str(text)
}

/// `HeaderMap::try_insert` under the name `host`: on success `value` is the
/// only value under `host` and every other name keeps its values; when the
/// map is full nothing changes. The map refuses only when its table would
/// have to grow beyond 32768 slots, which takes at least 6554 stored names;
/// it stores at most one name more afterwards.
#[verifier::external_body]
pub(crate) fn set_host(headers: &mut HeaderMap<HeaderValue>, value: HeaderValue) -> (set: Result<
    Option<HeaderValue>,
    MaxSizeReached,
>)
    ensures
        header_names(*old(headers)) < sure_room() ==> set is Ok,
        header_names(*final(headers)) <= header_names(*old(headers)) + 1,
        set is Ok ==> header_values(*final(headers), "host"@) == seq![value_bytes(value)],
        forall|name: Seq<char>|
            name != "host"@ || set is Err ==> #[trigger] header_values(*final(headers), name)
                == header_values(*old(headers), name),
{
    headers.try_insert(http::header::HOST, value)
}

/// `HeaderMap::try_append` under the name `forwarded`: on success `value`
/// follows the values already under `forwarded` and every other name keeps
/// its values; when the map is full nothing changes. The map refuses only
/// when its table would have to grow beyond 32768 slots, which takes at
/// least 6554 stored names; it stores at most one name more afterwards.
#[verifier::external_body]
pub(crate) fn add_forwarded(headers: &mut HeaderMap<HeaderValue>, value: HeaderValue) -> (added:
    Result<bool, MaxSizeReached>)
    ensures
        header_names(*old(headers)) < sure_room() ==> added is Ok,
        header_names(*final(headers)) <= header_names(*old(headers)) + 1,
        added is Ok ==> header_values(*final(headers), "forwarded"@) == header_values(
            *old(headers),
            "forwarded"@,
        ).push(value_bytes(value)),
        forall|name: Seq<char>|
            name != "forwarded"@ || added is Err ==> #[trigger] header_values(*final(headers), name)
                == header_values(*old(headers), name),
{
    headers.try_append(http::header::FORWARDED, value)
}

/// Why the headers of a request could not be rewritten.
#[derive(Clone, Copy, Debug, PartialEq, Eq, Structural)]
pub enum HeaderError {
    /// The backend's host cannot stand in a header value.
    Host,
    /// The `Forwarded` text cannot stand in a header value.
    Forwarded,
    /// The header map took no further entry.
    Full,
}

/// The text of the `Forwarded` header.
pub open spec fn forwarded_text(
    lb_address: Seq<char>,
    client_addr: Seq<char>,
    backend_uri: Seq<char>,
) -> Seq<char> {
    "by="@ + lb_address + "; for="@ + client_addr + "; host="@ + backend_uri + "; proto=http1"@
}

/// Writes the text of the `Forwarded` header: who forwards (`by`), for
/// which client (`for`), to which backend (`host`), over HTTP/1.
pub fn forwarded_value(lb_address: &str, client_addr: &str, backend_uri: &str) -> (text: String)
    ensures
        text@ == forwarded_text(lb_address@, client_addr@, backend_uri@),
{
    let mut text = String::from_str("by=");
    text.append(lb_address);
    text.append("; for=");
    text.append(client_addr);
    text.append("; host=");
    text.append(backend_uri);
    text.append("; proto=http1");
    text
}

/// Rewrites the headers of a request that is about to go to `server`:
/// `Host` becomes the backend's host, replacing whatever stood there, and
/// a `Forwarded` header is appended after those already present. Every
/// other header stays as it is.
///
/// Both texts are checked before the map is touched: the rewrite fails
/// with `Host` exactly when the backend's host cannot stand in a header
/// value, and with `Forwarded` exactly when the host can and the
/// `Forwarded` text cannot; then the map is unchanged. With both texts
/// fit, the rewrite succeeds whenever the map stores fewer names than
/// `sure_room() - 1`; beyond that the map itself may refuse, which gives
/// `Full`, and then `Host` may already have been replaced.
pub fn rewrite_headers(
    headers: &mut HeaderMap<HeaderValue>,
    server: &Server,
    lb_address: &str,
    client_addr: &str,
) -> (done: Result<(), HeaderError>)
    ensures
        done == Err::<(), _>(HeaderError::Host) <==> !is_header_text(encode_utf8(server.host@)),
        done == Err::<(), _>(HeaderError::Forwarded) <==> is_header_text(
            encode_utf8(server.host@),
        ) && !is_header_text(
            encode_utf8(forwarded_text(lb_address@, client_addr@, uri_text(server.uri))),
        ),
        is_header_text(encode_utf8(server.host@)) && is_header_text(
            encode_utf8(forwarded_text(lb_address@, client_addr@, uri_text(server.uri))),
        ) && header_names(*old(headers)) + 1 < sure_room() ==> done is Ok,
        header_names(*final(headers)) <= header_names(*old(headers)) + 2,
        done is Err && done != Err::<(), _>(HeaderError::Full) ==> forall|name: Seq<char>|
            #[trigger] header_values(*final(headers), name) == header_values(*old(headers), name),
        done is Err ==> forall|name: Seq<char>|
            name != "host"@ ==> #[trigger] header_values(*final(headers), name) == header_values(
                *old(headers),
                name,
            ),
        done is Ok ==> {
            &&& header_values(*final(headers), "host"@) == seq![encode_utf8(server.host@)]
            &&& header_values(*final(headers), "forwarded"@) == header_values(
                *old(headers),
                "forwarded"@,
            ).push(encode_utf8(forwarded_text(lb_address@, client_addr@, uri_text(server.uri))))
            &&& forall|name: Seq<char>|
                name != "host"@ && name != "forwarded"@ ==> #[trigger] header_values(
                    *final(headers),
                    name,
                ) == header_values(*old(headers), name)
        },
{
    let host = match header_value(server.host.as_str()) {
        Ok(value) => value,
        Err(_) => { return Err(HeaderError::Host); },
    };
    let backend_uri = render_uri(&server.uri);
    let text = forwarded_value(lb_address, client_addr, backend_uri.as_str());
    let forwarded = match header_value(text.as_str()) {
        Ok(value) => value,
        Err(_) => { return Err(HeaderError::Forwarded); },
    };
    proof {
        reveal_strlit("host");
        reveal_strlit("forwarded");
        assert("host"@ != "forwarded"@) by {
            assert("host"@.len() == 4 && "forwarded"@.len() == 9);
        }
    }
    match set_host(headers, host) {
        Ok(_) => {},
        Err(_) => { return Err(HeaderError::Full); },
    }
    match add_forwarded(headers, forwarded) {
        Ok(_) => Ok(()),
        Err(_) => Err(HeaderError::Full),
    }
}

} // verus!
