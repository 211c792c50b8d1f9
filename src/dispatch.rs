//! The decisions taken for each datagram: whether to trust it, what to answer,
//! and what to send when processing misses its deadline.
//!
//! Receiving, waiting and sending are left to the caller, which reports what
//! happened as an [`Event`] and carries out the [`Action`] that [`step`] returns.

use vstd::prelude::*;

use crate::codec::{checksum, crc32_of, split, split_spec};
use crate::database::{transaction_reply, UserDatabase};
use crate::error::{message_of, ErrorMsg, Fault, ServerError};
use crate::jsonrpc::v1::{ReqBody, RespView};
use crate::prelude::v1::{response_of, ResponseBuilder};
use crate::{method_of, resolve, JsonInternal, ParamView};

verus! {

/// The largest datagram accepted, in bytes.
pub const UDP_DATAGRAM_MAX_SIZE: usize = 65536;

/// The body of a datagram that can be trusted: oversized, malformed and
/// corrupted datagrams are errors, to be dropped without an answer.
pub fn open_datagram(datagram: &[u8]) -> (r: Result<Vec<u8>, ServerError>)
    ensures
        match split_spec(datagram@) {
            _ if datagram@.len() > UDP_DATAGRAM_MAX_SIZE => r matches Err(e) && e@
                == Fault::MalformedDatagram,
            None => r matches Err(e) && e@ == Fault::MalformedDatagram,
            Some((b, sum)) => if crc32_of(b) == sum {
                r matches Ok(body) && body@ == b
            } else {
                r matches Err(e) && e@ == (Fault::ChecksumUnmatch {
                    expect: sum,
                    actual: crc32_of(b),
                })
            },
        },
{
    if datagram.len() > UDP_DATAGRAM_MAX_SIZE {
        return Err(ServerError::MalformedDatagram);
    }
    match split(datagram) {
        None => Err(ServerError::MalformedDatagram),
        Some((body, sum)) => {
            let actual = checksum(body.as_slice());
            if actual == sum {
                Ok(body)
            } else {
                Err(ServerError::ChecksumUnmatch { expect: sum, actual })
            }
        },
    }
}

/// How each raw parameter of a request resolves.
pub open spec fn resolved(params: Seq<Seq<char>>) -> Seq<ParamView> {
    params.map_values(|p: Seq<char>| resolve(p))
}

/// The answer to a verified datagram whose body is not a request envelope: a
/// parse error for the id recovered from it, or nothing when no id was recovered.
pub fn unreadable_request_response(recovered_id: Option<usize>) -> (r: Option<ResponseBuilder>)
    ensures
        match recovered_id {
            Some(id) => r matches Some(b) && b@ == response_of(Err(Fault::ParseJson), id),
            None => r is None,
        },
{
    match recovered_id {
        Some(id) => Some(ResponseBuilder::from_reply(Err(ServerError::ParseJson), id)),
        None => None,
    }
}

/// Runs a request against a store and composes the response: an unknown method
/// is a parse error; otherwise the response carries the transaction's reply.
pub fn handle_request(db: &UserDatabase, req: &ReqBody) -> (r: ResponseBuilder)
    ensures
        r@.wf(),
        r@.id == req.id,
        match method_of(req@.method) {
            None => r@ == response_of(Err(Fault::ParseJson), req.id),
            Some(m) => exists|first, second|
                r@ == response_of(
                    #[trigger] transaction_reply(m, resolved(req@.params), first, second),
                    req.id,
                ),
        },
{
    match req.parse_method() {
        Err(e) => ResponseBuilder::from_reply(Err(e), req.id),
        Ok(m) => {
            let params = req.parse_params();
            assert(crate::database::param_views(params@) =~= resolved(req@.params));
            let reply = db.transaction(m, params);
            ResponseBuilder::from_reply(reply, req.id)
        },
    }
}

/// Where the handling of one verified datagram stands.
#[derive(Debug, Clone, Copy, PartialEq, Eq, Structural)]
pub enum Phase {
    /// The request is being processed.
    Processing,
    /// A response has been sent.
    Responded,
    /// Nothing was or will be sent.
    Dropped,
}

/// What the caller observed.
#[derive(Debug, Clone, Copy, PartialEq, Eq, Structural)]
pub enum Event {
    /// Processing finished and its response is ready.
    Finished,
    /// The deadline passed first; holds the id recovered from the request, if any.
    DeadlineElapsed(Option<usize>),
}

/// What the caller must do.
#[derive(Debug, Clone, Copy, PartialEq, Eq, Structural)]
pub enum Action {
    /// Send the response that processing built.
    SendResult,
    /// Send a timeout error for this request id.
    SendTimeout(usize),
    /// Send nothing.
    Nothing,
}

/// The next phase and the action for an event.
pub open spec fn next(phase: Phase, event: Event) -> (Phase, Action) {
    match phase {
        Phase::Processing => match event {
            Event::Finished => (Phase::Responded, Action::SendResult),
            Event::DeadlineElapsed(Some(id)) => (Phase::Responded, Action::SendTimeout(id)),
            Event::DeadlineElapsed(None) => (Phase::Dropped, Action::Nothing),
        },
        _ => (phase, Action::Nothing),
    }
}

/// Decides what to do on an event.
pub fn step(phase: Phase, event: Event) -> (r: (Phase, Action))
    ensures
        r == next(phase, event),
{
    match phase {
        Phase::Processing => match event {
            Event::Finished => (Phase::Responded, Action::SendResult),
            Event::DeadlineElapsed(Some(id)) => (Phase::Responded, Action::SendTimeout(id)),
            Event::DeadlineElapsed(None) => (Phase::Dropped, Action::Nothing),
        },
        _ => (phase, Action::Nothing),
    }
}

/// How many responses are sent along a run of events from `phase`.
pub open spec fn responses(phase: Phase, events: Seq<Event>) -> nat
    decreases events.len(),
{
    if events.len() == 0 {
        0
    } else {
        let (p, a) = next(phase, events[0]);
        (if a == Action::Nothing {
            0nat
        } else {
            1nat
        }) + responses(p, events.drop_first())
    }
}

proof fn lemma_settled_silent(phase: Phase, events: Seq<Event>)
    requires
        phase != Phase::Processing,
    ensures
        responses(phase, events) == 0,
    decreases events.len(),
{
    if events.len() > 0 {
        lemma_settled_silent(phase, events.drop_first());
    }
}

/// Whatever happens, at most one response is sent for a request.
pub proof fn lemma_at_most_one_response(events: Seq<Event>)
    ensures
        responses(Phase::Processing, events) <= 1,
{
    if events.len() > 0 {
        let (p, a) = next(Phase::Processing, events[0]);
        if p != Phase::Processing {
            lemma_settled_silent(p, events.drop_first());
        }
    }
}

/// When the deadline passes first and the request's id is known, exactly one
/// response is sent, a timeout error for that id, whatever follows.
pub proof fn lemma_timeout_answered_once(id: usize, later: Seq<Event>)
    ensures
        next(Phase::Processing, Event::DeadlineElapsed(Some(id))).1 == Action::SendTimeout(id),
        responses(Phase::Processing, seq![Event::DeadlineElapsed(Some(id))] + later) == 1,
{
    let events = seq![Event::DeadlineElapsed(Some(id))] + later;
    assert(events.drop_first() =~= later);
    lemma_settled_silent(Phase::Responded, later);
}

/// The error response for request `id` whose processing missed its deadline.
pub fn timeout_response(id: usize) -> (r: ResponseBuilder)
    ensures
        r@ == (RespView { result: None, error: Some(message_of(Fault::Timeout)), id }),
        r@.wf(),
{
    ResponseBuilder::error(ErrorMsg::from_error(ServerError::Timeout), id)
}

} // verus!
