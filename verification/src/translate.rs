//! The two translators: from an inbound request to the outbound request, and
//! from the upstream's response to the reply.
//!
//! Both are local constructions. Neither touches the network, and each fails
//! only where the HTTP types cannot carry what it has built.

use vstd::prelude::*;
use crate::errors::Error;
use crate::hop::{end_to_end, remove_hop_headers};
use crate::message::{AnswerModel, OutboundModel, OutboundRequest, Reply, Request, RequestModel, Response};
use crate::rewrite::{append_query, with_query};
use crate::syntax::{
    are_valid_headers,
    headers_valid,
    method_accepted,
    method_valid,
    status_accepted,
    status_valid,
    url_accepted,
    url_valid,
};

verus! {

/// The outbound request for `request`, sent to the resolved URL `url`: the
/// URL with the query behind it, the same method and body, and the headers
/// that are relayed.
pub open spec fn outbound(url: Seq<char>, request: RequestModel) -> OutboundModel {
    OutboundModel {
        url: with_query(url, request.query),
        method: request.method,
        headers: end_to_end(request.headers),
        body: request.body,
    }
}

/// Whether `request` is a syntactically valid request: the transport accepts
/// its method, its URL and each of its headers.
pub open spec fn well_formed_request(request: OutboundModel) -> bool {
    &&& method_valid(request.method)
    &&& url_valid(request.url)
    &&& headers_valid(request.headers)
}

/// The reply for `response`: the same status and body, and the headers that
/// are relayed.
pub open spec fn reply_for(response: AnswerModel) -> AnswerModel {
    AnswerModel {
        status: response.status,
        headers: end_to_end(response.headers),
        body: response.body,
    }
}

/// Whether the front end can express `reply`: it accepts the status code and
/// each of the headers.
pub open spec fn representable_reply(reply: AnswerModel) -> bool {
    &&& status_valid(reply.status)
    &&& headers_valid(reply.headers)
}

/// Builds the outbound request for `request` and the resolved URL `url`,
/// without asking whether the transport accepts it.
pub fn outbound_request(url: String, request: Request) -> (out: OutboundRequest)
    ensures
        out@ == outbound(url@, request@),
{
    let Request { path: _, query, method, headers, body } = request;
    let full = append_query(url, &query);
    let kept = remove_hop_headers(&headers);
    OutboundRequest { url: full, method, headers: kept, body }
}

/// Whether the transport accepts `request`.
pub fn is_well_formed_request(request: &OutboundRequest) -> (ok: bool)
    ensures
        ok == well_formed_request(request@),
{
    method_accepted(request.method.as_str()) && url_accepted(request.url.as_str())
        && are_valid_headers(&request.headers)
}

/// Hands `request` on where it was found well formed, and rejects it as
/// malformed where it was not.
pub fn accept_request(request: OutboundRequest, well_formed: bool) -> (result: Result<
    OutboundRequest,
    Error,
>)
    ensures
        well_formed ==> result == Ok::<OutboundRequest, Error>(request),
        !well_formed ==> result == Err::<OutboundRequest, Error>(Error::MalformedRequest),
{
    if well_formed {
        Ok(request)
    } else {
        Err(Error::MalformedRequest)
    }
}

/// Translates an inbound request into the request for the upstream.
///
/// `proxy_address` is the resolved URL of the upstream resource, without the
/// query. The result is the request of [`outbound`] where that request is well
/// formed, and `MalformedRequest` where it is not.
pub fn filtered_data_to_request(proxy_address: String, request: Request) -> (result: Result<
    OutboundRequest,
    Error,
>)
    ensures
        match result {
            Ok(out) => out@ == outbound(proxy_address@, request@) && well_formed_request(out@),
            Err(e) => e == Error::MalformedRequest && !well_formed_request(
                outbound(proxy_address@, request@),
            ),
        },
{
    let out = outbound_request(proxy_address, request);
    let well_formed = is_well_formed_request(&out);
    accept_request(out, well_formed)
}

/// Builds the reply for `response`, without asking whether the front end can
/// express it.
pub fn reply_to(response: Response) -> (reply: Reply)
    ensures
        reply@ == reply_for(response@),
{
    let Response { status, headers, body } = response;
    let kept = remove_hop_headers(&headers);
    Reply { status, headers: kept, body }
}

/// Whether the front end can express `reply`.
pub fn is_representable_reply(reply: &Reply) -> (ok: bool)
    ensures
        ok == representable_reply(reply@),
{
    status_accepted(reply.status) && are_valid_headers(&reply.headers)
}

/// Hands `reply` on where it was found representable, and rejects the
/// response as malformed where it was not.
pub fn accept_reply(reply: Reply, representable: bool) -> (result: Result<Reply, Error>)
    ensures
        representable ==> result == Ok::<Reply, Error>(reply),
        !representable ==> result == Err::<Reply, Error>(Error::MalformedResponse),
{
    if representable {
        Ok(reply)
    } else {
        Err(Error::MalformedResponse)
    }
}

/// Translates the upstream's response into the reply for the client.
///
/// The result is the reply of [`reply_for`] where the front end can express
/// it, and `MalformedResponse` where it cannot.
pub fn response_to_reply(response: Response) -> (result: Result<Reply, Error>)
    ensures
        match result {
            Ok(reply) => reply@ == reply_for(response@) && representable_reply(reply@),
            Err(e) => e == Error::MalformedResponse && !representable_reply(
                reply_for(response@),
            ),
        },
{
    let reply = reply_to(response);
    let representable = is_representable_reply(&reply);
    accept_reply(reply, representable)
}

} // verus!
