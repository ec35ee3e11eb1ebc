//! The values that pass through one forwarding operation, and what each of
//! them is in contracts.

use vstd::prelude::*;
use crate::hop::{Header, HeaderModel};

verus! {

/// The raw query string of an inbound request, where it has one.
pub type QueryParameters = Option<String>;

/// An inbound request, as the front end captured it. The body is complete.
#[derive(Clone, Debug, PartialEq, Eq)]
pub struct Request {
    /// The path, which starts with a slash.
    pub path: String,
    pub query: QueryParameters,
    pub method: String,
    pub headers: Vec<Header>,
    pub body: Vec<u8>,
}

/// The request that is sent to the upstream.
#[derive(Clone, Debug, PartialEq, Eq)]
pub struct OutboundRequest {
    pub url: String,
    pub method: String,
    pub headers: Vec<Header>,
    pub body: Vec<u8>,
}

/// What the upstream answered. The body is complete.
#[derive(Clone, Debug, PartialEq, Eq)]
pub struct Response {
    pub status: u16,
    pub headers: Vec<Header>,
    pub body: Vec<u8>,
}

/// The reply that the front end writes back to the client.
#[derive(Clone, Debug, PartialEq, Eq)]
pub struct Reply {
    pub status: u16,
    pub headers: Vec<Header>,
    pub body: Vec<u8>,
}

/// An inbound request in contracts.
pub struct RequestModel {
    pub path: Seq<char>,
    pub query: Option<Seq<char>>,
    pub method: Seq<char>,
    pub headers: Seq<HeaderModel>,
    pub body: Seq<u8>,
}

/// An outbound request in contracts.
pub struct OutboundModel {
    pub url: Seq<char>,
    pub method: Seq<char>,
    pub headers: Seq<HeaderModel>,
    pub body: Seq<u8>,
}

/// An upstream response or a reply in contracts.
pub struct AnswerModel {
    pub status: u16,
    pub headers: Seq<HeaderModel>,
    pub body: Seq<u8>,
}

/// The characters of an optional string.
pub open spec fn option_view(text: Option<String>) -> Option<Seq<char>> {
    match text {
        Some(t) => Some(t@),
        None => None,
    }
}

impl View for Request {
    type V = RequestModel;

    open spec fn view(&self) -> RequestModel {
        RequestModel {
            path: self.path@,
            query: option_view(self.query),
            method: self.method@,
            headers: self.headers.deep_view(),
            body: self.body@,
        }
    }
}

impl View for OutboundRequest {
    type V = OutboundModel;

    open spec fn view(&self) -> OutboundModel {
        OutboundModel {
            url: self.url@,
            method: self.method@,
            headers: self.headers.deep_view(),
            body: self.body@,
        }
    }
}

impl View for Response {
    type V = AnswerModel;

    open spec fn view(&self) -> AnswerModel {
        AnswerModel { status: self.status, headers: self.headers.deep_view(), body: self.body@ }
    }
}

impl View for Reply {
    type V = AnswerModel;

    open spec fn view(&self) -> AnswerModel {
        AnswerModel { status: self.status, headers: self.headers.deep_view(), body: self.body@ }
    }
}

} // verus!
