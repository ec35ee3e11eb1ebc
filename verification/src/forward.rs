//! The forwarding orchestrator.
//!
//! One forwarding operation runs through four states: the request is
//! received, translated, dispatched, and replied to. Any failure ends the
//! operation in a rejection that carries its kind. Only the step from
//! translated to dispatched needs the network, so the operation is written as
//! a transition function: the caller sends the translated request, and reports
//! what the transport did as an event.

use vstd::prelude::*;
use crate::errors::Error;
use crate::hop::end_to_end;
use crate::message::{AnswerModel, OutboundModel, OutboundRequest, Reply, Request, RequestModel, Response};
use crate::rewrite::{remove_relative_path, resolved_url};
use crate::syntax::headers_valid;
use crate::translate::{
    filtered_data_to_request,
    outbound,
    reply_for,
    representable_reply,
    response_to_reply,
    well_formed_request,
};

verus! {

/// The state of one forwarding operation.
#[derive(Clone, Debug, PartialEq, Eq)]
pub enum Forwarding {
    /// The inbound request was captured for a route.
    Received { proxy_address: String, base_path: String, request: Request },
    /// The outbound request is built and waits to be sent.
    Translated { outbound: OutboundRequest },
    /// The upstream has answered in full.
    Dispatched { response: Response },
    /// The operation ended with a complete reply.
    Replied { reply: Reply },
    /// The operation ended without a reply.
    Rejected { reason: Error },
}

/// What has happened since the last step.
#[derive(Clone, Debug, PartialEq, Eq)]
pub enum Event {
    /// Nothing outside the operation: it goes on by itself.
    Proceed,
    /// The transport delivered the upstream's complete response.
    Answered { response: Response },
    /// The transport could not reach the upstream, or the exchange broke off.
    Unreachable,
}

/// What the caller does with the state that a step has led to.
#[derive(Clone, Copy, Debug, PartialEq, Eq, Structural)]
pub enum Action {
    /// Take the next step with `Event::Proceed`.
    Continue,
    /// Send the translated request, then report `Answered` or `Unreachable`.
    Send,
    /// Hand the reply to the client: the operation is over.
    Deliver,
    /// Report the rejection: the operation is over.
    Reject,
}

/// The state of a forwarding operation in contracts.
pub enum ForwardingModel {
    Received { proxy_address: Seq<char>, base_path: Seq<char>, request: RequestModel },
    Translated { outbound: OutboundModel },
    Dispatched { response: AnswerModel },
    Replied { reply: AnswerModel },
    Rejected { reason: Error },
}

/// An event in contracts.
pub enum EventModel {
    Proceed,
    Answered { response: AnswerModel },
    Unreachable,
}

impl View for Forwarding {
    type V = ForwardingModel;

    open spec fn view(&self) -> ForwardingModel {
        match *self {
            Forwarding::Received { proxy_address, base_path, request } => ForwardingModel::Received {
                proxy_address: proxy_address@,
                base_path: base_path@,
                request: request@,
            },
            Forwarding::Translated { outbound } => ForwardingModel::Translated { outbound: outbound@ },
            Forwarding::Dispatched { response } => ForwardingModel::Dispatched {
                response: response@,
            },
            Forwarding::Replied { reply } => ForwardingModel::Replied { reply: reply@ },
            Forwarding::Rejected { reason } => ForwardingModel::Rejected { reason },
        }
    }
}

impl View for Event {
    type V = EventModel;

    open spec fn view(&self) -> EventModel {
        match *self {
            Event::Proceed => EventModel::Proceed,
            Event::Answered { response } => EventModel::Answered { response: response@ },
            Event::Unreachable => EventModel::Unreachable,
        }
    }
}

/// The outbound request that a received request is translated into.
pub open spec fn translation(
    proxy_address: Seq<char>,
    base_path: Seq<char>,
    request: RequestModel,
) -> OutboundModel {
    outbound(resolved_url(base_path, request.path, proxy_address), request)
}

/// The state that `event` leads to from `state`.
///
/// A received request is translated, or rejected as malformed. A translated
/// request waits for the transport: its answer is taken, its failure rejects
/// the operation. An answer is turned into the reply, or rejected as
/// malformed. An event that a state does not wait for leaves it as it is, and
/// nothing leads out of a reply or a rejection.
pub open spec fn next_state(state: ForwardingModel, event: EventModel) -> ForwardingModel {
    match (state, event) {
        (ForwardingModel::Received { proxy_address, base_path, request }, EventModel::Proceed) => {
            let out = translation(proxy_address, base_path, request);
            if well_formed_request(out) {
                ForwardingModel::Translated { outbound: out }
            } else {
                ForwardingModel::Rejected { reason: Error::MalformedRequest }
            }
        },
        (ForwardingModel::Translated { .. }, EventModel::Answered { response }) => {
            ForwardingModel::Dispatched { response }
        },
        (ForwardingModel::Translated { .. }, EventModel::Unreachable) => {
            ForwardingModel::Rejected { reason: Error::UpstreamUnreachable }
        },
        (ForwardingModel::Dispatched { response }, EventModel::Proceed) => {
            let reply = reply_for(response);
            if representable_reply(reply) {
                ForwardingModel::Replied { reply }
            } else {
                ForwardingModel::Rejected { reason: Error::MalformedResponse }
            }
        },
        _ => state,
    }
}

/// What the caller does in `state`.
pub open spec fn action_in(state: ForwardingModel) -> Action {
    match state {
        ForwardingModel::Received { .. } => Action::Continue,
        ForwardingModel::Translated { .. } => Action::Send,
        ForwardingModel::Dispatched { .. } => Action::Continue,
        ForwardingModel::Replied { .. } => Action::Deliver,
        ForwardingModel::Rejected { .. } => Action::Reject,
    }
}

impl Forwarding {
    /// The start of the operation for `request`, on the route mounted at
    /// `base_path` in front of the upstream at `proxy_address`.
    pub fn new(proxy_address: String, base_path: String, request: Request) -> (state: Forwarding)
        ensures
            state@ == (ForwardingModel::Received {
                proxy_address: proxy_address@,
                base_path: base_path@,
                request: request@,
            }),
    {
        Forwarding::Received { proxy_address, base_path, request }
    }

    /// What the caller does in this state.
    pub fn action(&self) -> (action: Action)
        ensures
            action == action_in(self@),
    {
        match self {
            Forwarding::Received { .. } => Action::Continue,
            Forwarding::Translated { .. } => Action::Send,
            Forwarding::Dispatched { .. } => Action::Continue,
            Forwarding::Replied { .. } => Action::Deliver,
            Forwarding::Rejected { .. } => Action::Reject,
        }
    }

    /// Takes one step: the state that `event` leads to, and what the caller
    /// does there.
    pub fn step(self, event: Event) -> (next: (Forwarding, Action))
        ensures
            next.0@ == next_state(self@, event@),
            next.1 == action_in(next.0@),
    {
        let state = match (self, event) {
            (Forwarding::Received { proxy_address, base_path, request }, Event::Proceed) => {
                let url = remove_relative_path(request.path.as_str(), base_path, proxy_address);
                match filtered_data_to_request(url, request) {
                    Ok(out) => Forwarding::Translated { outbound: out },
                    Err(reason) => Forwarding::Rejected { reason },
                }
            },
            (Forwarding::Translated { .. }, Event::Answered { response }) => {
                Forwarding::Dispatched { response }
            },
            (Forwarding::Translated { .. }, Event::Unreachable) => {
                Forwarding::Rejected { reason: Error::UpstreamUnreachable }
            },
            (Forwarding::Dispatched { response }, Event::Proceed) => {
                match response_to_reply(response) {
                    Ok(reply) => Forwarding::Replied { reply },
                    Err(reason) => Forwarding::Rejected { reason },
                }
            },
            (state, _) => state,
        };
        let action = state.action();
        (state, action)
    }
}

/// The state that a run of events leads to from `state`, first event first.
pub open spec fn run(state: ForwardingModel, events: Seq<EventModel>) -> ForwardingModel
    decreases events.len(),
{
    if events.len() == 0 {
        state
    } else {
        next_state(run(state, events.drop_last()), events.last())
    }
}

/// Whether the operation is over in `state`.
pub open spec fn is_terminal(state: ForwardingModel) -> bool {
    state is Replied || state is Rejected
}

/// Nothing leads out of a reply or a rejection: an operation that has ended
/// in one stays there, whatever is reported afterwards.
pub proof fn lemma_terminal_is_final(state: ForwardingModel, events: Seq<EventModel>)
    requires
        is_terminal(state),
    ensures
        run(state, events) == state,
    decreases events.len(),
{
    if events.len() > 0 {
        lemma_terminal_is_final(state, events.drop_last());
    }
}

/// An operation is over after three steps: the translation, what the
/// transport reported, and the reply.
pub proof fn lemma_three_steps_end(
    proxy_address: Seq<char>,
    base_path: Seq<char>,
    request: RequestModel,
    reported: EventModel,
)
    requires
        !(reported is Proceed),
    ensures
        is_terminal(
            next_state(
                next_state(
                    next_state(
                        ForwardingModel::Received { proxy_address, base_path, request },
                        EventModel::Proceed,
                    ),
                    reported,
                ),
                EventModel::Proceed,
            ),
        ),
{
}

/// Round trip: where the outbound request is well formed, it carries the
/// inbound body to the upstream; and where the upstream answers that body
/// with status 200 and headers that can be relayed, the operation ends in a
/// reply with status 200 and exactly that body.
pub proof fn lemma_echo_round_trip(
    proxy_address: Seq<char>,
    base_path: Seq<char>,
    request: RequestModel,
    response: AnswerModel,
)
    requires
        well_formed_request(translation(proxy_address, base_path, request)),
        response.status == 200,
        response.body == request.body,
        headers_valid(end_to_end(response.headers)),
    ensures
        ({
            let received = ForwardingModel::Received { proxy_address, base_path, request };
            let translated = next_state(received, EventModel::Proceed);
            let dispatched = next_state(translated, EventModel::Answered { response });
            let replied = next_state(dispatched, EventModel::Proceed);
            &&& translated == ForwardingModel::Translated {
                outbound: translation(proxy_address, base_path, request),
            }
            &&& translation(proxy_address, base_path, request).body == request.body
            &&& replied == ForwardingModel::Replied {
                reply: AnswerModel {
                    status: 200,
                    headers: end_to_end(response.headers),
                    body: request.body,
                },
            }
        }),
{
}

/// Where the outbound request is well formed and the upstream cannot be
/// reached, the operation ends in a rejection of kind `UpstreamUnreachable`,
/// and no later event turns it into a reply.
pub proof fn lemma_unreachable_rejects(
    proxy_address: Seq<char>,
    base_path: Seq<char>,
    request: RequestModel,
    later: Seq<EventModel>,
)
    requires
        well_formed_request(translation(proxy_address, base_path, request)),
    ensures
        ({
            let received = ForwardingModel::Received { proxy_address, base_path, request };
            let translated = next_state(received, EventModel::Proceed);
            let rejected = next_state(translated, EventModel::Unreachable);
            run(rejected, later) == ForwardingModel::Rejected {
                reason: Error::UpstreamUnreachable,
            }
        }),
{
    let received = ForwardingModel::Received { proxy_address, base_path, request };
    let rejected = next_state(next_state(received, EventModel::Proceed), EventModel::Unreachable);
    lemma_terminal_is_final(rejected, later);
}

} // verus!
