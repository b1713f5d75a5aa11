//! The decisions that carry one HTTP/3 request through a router and back.
//!
//! An [`Exchange`] is the state of one bridged request. The I/O loop that
//! drives it performs each [`Action`] the exchange asks for and hands the
//! outcome back as an [`Event`]; [`Exchange::step`] then gives the next state
//! and the next action. The order of the exchange is fixed: resolve the
//! request, read its body chunk by chunk into one buffer, call the router once
//! with the whole body, send the response head, collect the response body,
//! send it if it is not empty, and finish the stream. A failed body read is
//! answered with a header-only "Bad Request" and a finish, both best effort,
//! before the read error is returned.

use bytes::BytesMut;
use vstd::prelude::*;

verus! {

#[verifier::external_type_specification]
#[verifier::external_body]
pub struct ExBytesMut(bytes::BytesMut);

/// The bytes that a request-body buffer holds, in order.
pub uninterp spec fn buffered(b: BytesMut) -> Seq<u8>;

/// Relies on `bytes::BytesMut::new`: a new buffer holds no bytes.
#[verifier::external_body]
fn empty_buffer() -> (r: BytesMut)
    ensures
        buffered(r) == Seq::<u8>::empty(),
{
    BytesMut::new()
}

/// Relies on `bytes::BytesMut::len`: the number of bytes held.
#[verifier::external_body]
fn buffer_len(b: &BytesMut) -> (r: usize)
    ensures
        r == buffered(*b).len(),
{
    b.len()
}

/// Relies on `bytes::BytesMut::extend_from_slice`: the slice's bytes are
/// appended after those already held. It panics when the new length would
/// overflow `usize`.
#[verifier::external_body]
fn append_bytes(b: &mut BytesMut, s: &[u8])
    requires
        buffered(*old(b)).len() + s@.len() <= usize::MAX,
    ensures
        buffered(*final(b)) == buffered(*old(b)) + s@,
{
    b.extend_from_slice(s)
}

/// Relies on `From<BytesMut> for Vec<u8>`: the vector holds the buffer's
/// bytes, in order.
#[verifier::external_body]
fn buffer_into_vec(b: BytesMut) -> (r: Vec<u8>)
    ensures
        r@ == buffered(b),
{
    Vec::from(b)
}

/// The status code of the response sent when a request body cannot be read.
pub const BAD_REQUEST: u16 = 400;

/// One header line of a response: its name and its raw value.
pub struct Header {
    pub name: String,
    pub value: Vec<u8>,
}

/// The status and headers of a response, sent before any body bytes.
pub struct ResponseHead {
    pub status: u16,
    pub headers: Vec<Header>,
}

/// What a response head stands for in contracts.
pub struct HeadModel {
    pub status: u16,
    pub headers: Seq<Header>,
}

impl View for ResponseHead {
    type V = HeadModel;

    open spec fn view(&self) -> HeadModel {
        HeadModel { status: self.status, headers: self.headers@ }
    }
}

/// The head of the response that rejects an unreadable request body.
pub open spec fn bad_request_model() -> HeadModel {
    HeadModel { status: BAD_REQUEST, headers: Seq::empty() }
}

impl ResponseHead {
    /// A header-only "Bad Request" head.
    pub fn bad_request() -> (r: ResponseHead)
        ensures
            r@ == bad_request_model(),
    {
        ResponseHead { status: BAD_REQUEST, headers: Vec::new() }
    }
}

/// The step of an exchange whose failure ended it. The error to return is
/// the one that step produced.
#[derive(Clone, Copy, Debug, PartialEq, Eq, Structural)]
pub enum Failure {
    Resolve,
    BodyRead,
    Router,
    SendHead,
    CollectBody,
    SendBody,
    Finish,
}

/// The outcome of the last action, as the I/O loop observed it.
pub enum Event {
    /// The request head and its stream were obtained.
    Resolved,
    /// The request could not be resolved.
    ResolveFailed,
    /// One chunk of the request body arrived.
    Chunk(Vec<u8>),
    /// The request body has ended.
    BodyEnd,
    /// Reading the request body failed.
    ReadFailed,
    /// The router answered with a response of this head.
    Responded(ResponseHead),
    /// The router call itself failed.
    RouterFailed,
    /// The response body was collected into these bytes.
    Collected(Vec<u8>),
    /// Collecting the response body failed.
    CollectFailed,
    /// The last send or finish succeeded.
    Sent,
    /// The last send or finish failed.
    SendFailed,
}

/// What the I/O loop is to do next.
pub enum Action {
    /// Resolve the request into its head and stream.
    Resolve,
    /// Read the next chunk of the request body.
    ReadChunk,
    /// Call the router once, with the request head and this complete body.
    CallRouter(Vec<u8>),
    /// Send this response head on the stream.
    SendHead(ResponseHead),
    /// Collect the body of the router's response.
    CollectBody,
    /// Send these body bytes on the stream.
    SendBody(Vec<u8>),
    /// Finish the stream.
    Finish,
    /// The exchange is over: return success, or the error of the failed step.
    Return(Result<(), Failure>),
}

/// An event, in contracts.
pub enum EventModel {
    Resolved,
    ResolveFailed,
    Chunk(Seq<u8>),
    BodyEnd,
    ReadFailed,
    Responded(HeadModel),
    RouterFailed,
    Collected(Seq<u8>),
    CollectFailed,
    Sent,
    SendFailed,
}

/// An action, in contracts.
pub enum ActionModel {
    Resolve,
    ReadChunk,
    CallRouter(Seq<u8>),
    SendHead(HeadModel),
    CollectBody,
    SendBody(Seq<u8>),
    Finish,
    Return(Result<(), Failure>),
}

impl View for Event {
    type V = EventModel;

    open spec fn view(&self) -> EventModel {
        match self {
            Event::Resolved => EventModel::Resolved,
            Event::ResolveFailed => EventModel::ResolveFailed,
            Event::Chunk(c) => EventModel::Chunk(c@),
            Event::BodyEnd => EventModel::BodyEnd,
            Event::ReadFailed => EventModel::ReadFailed,
            Event::Responded(h) => EventModel::Responded(h@),
            Event::RouterFailed => EventModel::RouterFailed,
            Event::Collected(b) => EventModel::Collected(b@),
            Event::CollectFailed => EventModel::CollectFailed,
            Event::Sent => EventModel::Sent,
            Event::SendFailed => EventModel::SendFailed,
        }
    }
}

impl View for Action {
    type V = ActionModel;

    open spec fn view(&self) -> ActionModel {
        match self {
            Action::Resolve => ActionModel::Resolve,
            Action::ReadChunk => ActionModel::ReadChunk,
            Action::CallRouter(b) => ActionModel::CallRouter(b@),
            Action::SendHead(h) => ActionModel::SendHead(h@),
            Action::CollectBody => ActionModel::CollectBody,
            Action::SendBody(b) => ActionModel::SendBody(b@),
            Action::Finish => ActionModel::Finish,
            Action::Return(r) => ActionModel::Return(*r),
        }
    }
}

/// The state of one bridged request.
pub enum Exchange {
    /// Waiting for the request to resolve.
    Resolving,
    /// Reading the request body into the buffer.
    Reading(BytesMut),
    /// Waiting for the router's response.
    Routing,
    /// Sending the response head.
    SendingHead,
    /// Collecting the response body.
    Collecting,
    /// Sending the response body.
    SendingBody,
    /// Finishing the stream after a response.
    Finishing,
    /// Sending the "Bad Request" head after a failed body read.
    RejectingHead,
    /// Finishing the stream after a failed body read.
    RejectingFinish,
    /// The exchange is over, with this result.
    Done(Result<(), Failure>),
}

/// The state of an exchange, in contracts.
pub enum Phase {
    Resolving,
    Reading(Seq<u8>),
    Routing,
    SendingHead,
    Collecting,
    SendingBody,
    Finishing,
    RejectingHead,
    RejectingFinish,
    Done(Result<(), Failure>),
}

impl View for Exchange {
    type V = Phase;

    open spec fn view(&self) -> Phase {
        match self {
            Exchange::Resolving => Phase::Resolving,
            Exchange::Reading(b) => Phase::Reading(buffered(*b)),
            Exchange::Routing => Phase::Routing,
            Exchange::SendingHead => Phase::SendingHead,
            Exchange::Collecting => Phase::Collecting,
            Exchange::SendingBody => Phase::SendingBody,
            Exchange::Finishing => Phase::Finishing,
            Exchange::RejectingHead => Phase::RejectingHead,
            Exchange::RejectingFinish => Phase::RejectingFinish,
            Exchange::Done(r) => Phase::Done(*r),
        }
    }
}

/// Whether `e` answers the action that an exchange in phase `p` asked for.
/// A chunk is taken only while the buffered body stays within `usize`.
pub open spec fn accepts(p: Phase, e: EventModel) -> bool {
    match p {
        Phase::Resolving => e is Resolved || e is ResolveFailed,
        Phase::Reading(body) => match e {
            EventModel::Chunk(c) => body.len() + c.len() <= usize::MAX,
            _ => e is BodyEnd || e is ReadFailed,
        },
        Phase::Routing => e is Responded || e is RouterFailed,
        Phase::Collecting => e is Collected || e is CollectFailed,
        Phase::Done(_) => false,
        _ => e is Sent || e is SendFailed,
    }
}

/// The failure that ends an exchange, and the action that reports it.
pub open spec fn fail(f: Failure) -> (Phase, ActionModel) {
    (Phase::Done(Err(f)), ActionModel::Return(Err(f)))
}

/// The next phase and action of an exchange in phase `p` on event `e`.
pub open spec fn next(p: Phase, e: EventModel) -> (Phase, ActionModel) {
    match p {
        Phase::Resolving => if e is Resolved {
            (Phase::Reading(Seq::empty()), ActionModel::ReadChunk)
        } else {
            fail(Failure::Resolve)
        },
        Phase::Reading(body) => match e {
            EventModel::Chunk(c) => (Phase::Reading(body + c), ActionModel::ReadChunk),
            EventModel::BodyEnd => (Phase::Routing, ActionModel::CallRouter(body)),
            _ => (Phase::RejectingHead, ActionModel::SendHead(bad_request_model())),
        },
        Phase::Routing => match e {
            EventModel::Responded(h) => (Phase::SendingHead, ActionModel::SendHead(h)),
            _ => fail(Failure::Router),
        },
        Phase::SendingHead => if e is Sent {
            (Phase::Collecting, ActionModel::CollectBody)
        } else {
            fail(Failure::SendHead)
        },
        Phase::Collecting => match e {
            EventModel::Collected(b) => if b.len() > 0 {
                (Phase::SendingBody, ActionModel::SendBody(b))
            } else {
                (Phase::Finishing, ActionModel::Finish)
            },
            _ => fail(Failure::CollectBody),
        },
        Phase::SendingBody => if e is Sent {
            (Phase::Finishing, ActionModel::Finish)
        } else {
            fail(Failure::SendBody)
        },
        Phase::Finishing => if e is Sent {
            (Phase::Done(Ok(())), ActionModel::Return(Ok(())))
        } else {
            fail(Failure::Finish)
        },
        Phase::RejectingHead => (Phase::RejectingFinish, ActionModel::Finish),
        Phase::RejectingFinish => fail(Failure::BodyRead),
        Phase::Done(r) => (Phase::Done(r), ActionModel::Return(r)),
    }
}

impl Exchange {
    /// A new exchange, and its first action: resolve the request.
    pub fn start() -> (r: (Exchange, Action))
        ensures
            r.0@ == Phase::Resolving,
            r.1@ == ActionModel::Resolve,
    {
        (Exchange::Resolving, Action::Resolve)
    }

    /// Whether `ev` answers the action this exchange asked for.
    pub fn accepts(&self, ev: &Event) -> (r: bool)
        ensures
            r == accepts(self@, ev@),
    {
        match self {
            Exchange::Resolving => matches!(ev, Event::Resolved | Event::ResolveFailed),
            Exchange::Reading(body) => match ev {
                Event::Chunk(c) => buffer_len(body) <= usize::MAX - c.len(),
                _ => matches!(ev, Event::BodyEnd | Event::ReadFailed),
            },
            Exchange::Routing => matches!(ev, Event::Responded(_) | Event::RouterFailed),
            Exchange::Collecting => matches!(ev, Event::Collected(_) | Event::CollectFailed),
            Exchange::Done(_) => false,
            _ => matches!(ev, Event::Sent | Event::SendFailed),
        }
    }

    /// Whether the exchange is over.
    pub fn is_done(&self) -> (r: bool)
        ensures
            r == (self@ is Done),
    {
        matches!(self, Exchange::Done(_))
    }

    /// The next state and the next action, on the outcome of the last action.
    pub fn step(self, ev: Event) -> (r: (Exchange, Action))
        requires
            accepts(self@, ev@),
        ensures
            (r.0@, r.1@) == next(self@, ev@),
    {
        match self {
            Exchange::Resolving => match ev {
                Event::Resolved => (Exchange::Reading(empty_buffer()), Action::ReadChunk),
                _ => Exchange::failed(Failure::Resolve),
            },
            Exchange::Reading(mut body) => match ev {
                Event::Chunk(c) => {
                    append_bytes(&mut body, c.as_slice());
                    (Exchange::Reading(body), Action::ReadChunk)
                },
                Event::BodyEnd => (Exchange::Routing, Action::CallRouter(buffer_into_vec(body))),
                _ => (Exchange::RejectingHead, Action::SendHead(ResponseHead::bad_request())),
            },
            Exchange::Routing => match ev {
                Event::Responded(h) => (Exchange::SendingHead, Action::SendHead(h)),
                _ => Exchange::failed(Failure::Router),
            },
            Exchange::SendingHead => match ev {
                Event::Sent => (Exchange::Collecting, Action::CollectBody),
                _ => Exchange::failed(Failure::SendHead),
            },
            Exchange::Collecting => match ev {
                Event::Collected(b) => if b.len() > 0 {
                    (Exchange::SendingBody, Action::SendBody(b))
                } else {
                    (Exchange::Finishing, Action::Finish)
                },
                _ => Exchange::failed(Failure::CollectBody),
            },
            Exchange::SendingBody => match ev {
                Event::Sent => (Exchange::Finishing, Action::Finish),
                _ => Exchange::failed(Failure::SendBody),
            },
            Exchange::Finishing => match ev {
                Event::Sent => (Exchange::Done(Ok(())), Action::Return(Ok(()))),
                _ => Exchange::failed(Failure::Finish),
            },
            Exchange::RejectingHead => (Exchange::RejectingFinish, Action::Finish),
            Exchange::RejectingFinish => Exchange::failed(Failure::BodyRead),
            Exchange::Done(r) => (Exchange::Done(r), Action::Return(r)),
        }
    }

    fn failed(f: Failure) -> (r: (Exchange, Action))
        ensures
            (r.0@, r.1@) == fail(f),
    {
        (Exchange::Done(Err(f)), Action::Return(Err(f)))
    }
}

} // verus!
