//! What the HTTP types of the transport and of the front end accept.
//!
//! The library holds methods, header lines, status codes and URLs as plain
//! values. Whether such a value can stand in an outbound request or in a reply
//! is decided by the constructors of the `http` and `reqwest` types that will
//! carry it, and asked of them here.

use vstd::prelude::*;
use crate::hop::{Header, HeaderModel};

verus! {

/// Whether `http::HeaderName::from_bytes` accepts the UTF-8 bytes of `name`.
pub uninterp spec fn header_name_valid(name: Seq<char>) -> bool;

/// Whether `http::Method::from_bytes` accepts the UTF-8 bytes of `method`.
pub uninterp spec fn method_valid(method: Seq<char>) -> bool;

/// Whether `reqwest` takes `url` as the target of a request: it parses as a
/// URL, and the URL has a host.
pub uninterp spec fn url_valid(url: Seq<char>) -> bool;

/// The bytes that a header value may hold: the tab, and every byte from 32 on
/// but 127.
pub open spec fn header_value_valid(value: Seq<u8>) -> bool {
    forall|i: int| 0 <= i < value.len() ==> {
        let b = #[trigger] value[i];
        (b >= 32 && b != 127) || b == 9
    }
}

/// The status codes that a reply can carry: three decimal digits.
pub open spec fn status_valid(status: u16) -> bool {
    100 <= status < 1000
}

/// Whether every header of `headers` has a name and a value that the HTTP
/// types accept.
pub open spec fn headers_valid(headers: Seq<HeaderModel>) -> bool {
    forall|i: int| 0 <= i < headers.len() ==> {
        &&& header_name_valid((#[trigger] headers[i]).0)
        &&& header_value_valid(headers[i].1)
    }
}

/// Asks `http::HeaderName::from_bytes` whether it accepts `name`.
///
/// Trusted: the answer depends on the bytes of `name` alone.
#[verifier::external_body]
pub(crate) fn header_name_accepted(name: &str) -> (ok: bool)
    ensures
        ok == header_name_valid(name@),
{
    http::header::HeaderName::from_bytes(name.as_bytes()).is_ok()
}

/// Asks `http::HeaderValue::from_bytes` whether it accepts `value`.
///
/// Trusted: it accepts a value exactly when each byte is a tab, or is at
/// least 32 and not 127.
#[verifier::external_body]
pub(crate) fn header_value_accepted(value: &Vec<u8>) -> (ok: bool)
    ensures
        ok == header_value_valid(value@),
{
    http::header::HeaderValue::from_bytes(value.as_slice()).is_ok()
}

/// Asks `http::Method::from_bytes` whether it accepts `method`.
///
/// Trusted: the answer depends on the bytes of `method` alone.
#[verifier::external_body]
pub(crate) fn method_accepted(method: &str) -> (ok: bool)
    ensures
        ok == method_valid(method@),
{
    http::Method::from_bytes(method.as_bytes()).is_ok()
}

/// Asks `http::StatusCode::from_u16` whether it accepts `status`.
///
/// Trusted: it accepts the codes from 100 to 999 and no others.
#[verifier::external_body]
pub(crate) fn status_accepted(status: u16) -> (ok: bool)
    ensures
        ok == status_valid(status),
{
    http::StatusCode::from_u16(status).is_ok()
}

/// Asks `reqwest::Url::parse` whether `url` is a URL, and the parsed URL
/// whether it has a host: the two tests that `reqwest` makes of a request's
/// target.
///
/// Trusted: the answer depends on the characters of `url` alone.
#[verifier::external_body]
pub(crate) fn url_accepted(url: &str) -> (ok: bool)
    ensures
        ok == url_valid(url@),
{
    match reqwest::Url::parse(url) {
        Ok(parsed) => parsed.has_host(),
        Err(_) => false,
    }
}

/// Whether every header of `headers` can stand in a request or a reply.
pub fn are_valid_headers(headers: &Vec<Header>) -> (ok: bool)
    ensures
        ok == headers_valid(headers.deep_view()),
{
    let mut i: usize = 0;
    while i < headers.len()
        invariant
            i <= headers.len(),
            forall|j: int| 0 <= j < i ==> {
                &&& header_name_valid((#[trigger] headers.deep_view()[j]).0)
                &&& header_value_valid(headers.deep_view()[j].1)
            },
        decreases headers.len() - i,
    {
        assert(headers.deep_view()[i as int] == headers@[i as int]@);
        if !header_name_accepted(headers[i].name.as_str()) || !header_value_accepted(
            &headers[i].value,
        ) {
            return false;
        }
        i = i + 1;
    }
    true
}

} // verus!
