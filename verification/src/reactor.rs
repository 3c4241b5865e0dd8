//! The per-connection reactor's decisions, as pure verified functions: how
//! an inbound message is dispatched, which sequence numbers outbound
//! messages get, and what bytes each outbound message puts on the wire. The
//! surrounding tasks — sockets, queues, the backend — run outside this
//! crate and call in here for every decision.

use vstd::prelude::*;

use crate::error::Error;
use crate::event::Event;
use crate::frame::adapter_message;
use crate::protocol::{ProtocolMessage, ProtocolMessageV};
use crate::request::{Request, RequestV, ReverseRequest, ReverseRequestV};
use crate::response::{Response, ResponseV};

verus! {

/// The default capacity of the outbound event and reverse-request queues.
pub const DEFAULT_REACTOR_CAPACITY: usize = 100;

/// The default capacity of a client's queues.
pub const DEFAULT_CLIENT_CAPACITY: usize = 50;

/// The default size of a client's read buffer.
pub const DEFAULT_CLIENT_BUFFER: usize = 4096;

/// Configuration of a per-connection reactor.
#[derive(Debug, Clone, Copy, PartialEq, Eq)]
pub struct Reactor {
    pub capacity: usize,
}

impl Reactor {
    /// A reactor configuration with the default queue capacity.
    pub fn new() -> (r: Reactor)
        ensures
            r.capacity == DEFAULT_REACTOR_CAPACITY,
    {
        Reactor { capacity: DEFAULT_REACTOR_CAPACITY }
    }

    /// This configuration with another queue capacity.
    pub fn with_capacity(self, capacity: usize) -> (r: Reactor)
        ensures
            r.capacity == capacity,
    {
        Reactor { capacity }
    }
}

/// Configuration of a test client.
#[derive(Debug, Clone, Copy, PartialEq, Eq)]
pub struct ClientBuilder {
    pub capacity: usize,
    pub buffer: usize,
}

impl ClientBuilder {
    /// A client configuration with the default capacities.
    pub fn new() -> (r: ClientBuilder)
        ensures
            r.capacity == DEFAULT_CLIENT_CAPACITY,
            r.buffer == DEFAULT_CLIENT_BUFFER,
    {
        ClientBuilder { capacity: DEFAULT_CLIENT_CAPACITY, buffer: DEFAULT_CLIENT_BUFFER }
    }

    /// This configuration with another queue capacity.
    pub fn with_capacity(self, capacity: usize) -> (r: ClientBuilder)
        ensures
            r.capacity == capacity,
            r.buffer == self.buffer,
    {
        ClientBuilder { capacity, ..self }
    }

    /// This configuration with another read-buffer size.
    pub fn with_buffer(self, buffer: usize) -> (r: ClientBuilder)
        ensures
            r.buffer == buffer,
            r.capacity == self.capacity,
    {
        ClientBuilder { buffer, ..self }
    }
}

impl Default for ClientBuilder {
    /// The default client configuration.
    fn default() -> (r: ClientBuilder)
        ensures
            r.capacity == DEFAULT_CLIENT_CAPACITY,
            r.buffer == DEFAULT_CLIENT_BUFFER,
    {
        ClientBuilder::new()
    }
}

/// A connection's sequence counter: hands out `1, 2, 3, …` in order, one
/// number per outbound message, so that every outbound message carries a
/// strictly greater `seq` than every earlier one.
#[derive(Debug, Clone, Copy, PartialEq, Eq)]
pub struct SeqCounter {
    pub next: u64,
}

impl SeqCounter {
    /// Whether the counter is in a state it can ever reach: the first number
    /// it handed out was `1`.
    pub open spec fn wf(self) -> bool {
        self.next >= 1
    }

    /// A fresh counter, about to hand out `1`.
    pub fn new() -> (r: SeqCounter)
        ensures
            r.next == 1,
            r.wf(),
    {
        SeqCounter { next: 1 }
    }

    /// Hands out the next sequence number. Every later call returns a
    /// strictly greater number, and every number is positive.
    pub fn take_next(&mut self) -> (r: u64)
        requires
            old(self).wf(),
            old(self).next < u64::MAX,
        ensures
            r == old(self).next,
            final(self).next == old(self).next + 1,
            r >= 1,
            final(self).wf(),
    {
        let r = self.next;
        self.next = self.next + 1;
        r
    }
}

/// What the inbound loop does with one decoded message.
#[derive(Debug, PartialEq, Eq)]
pub enum InboundAction {
    /// A request: hand it to the backend and answer with the `seq` it bore.
    HandleRequest { request_seq: u64, request: Request },
    /// A response to an earlier reverse request: hand it to the backend.
    HandleResponse { request_seq: u64, response: Response },
    /// An event from the client: the protocol has no such thing; drop it.
    DropEvent,
    /// A message that does not decode: drop it and carry on.
    DropInvalid { error: Error },
}

/// Model of an [`InboundAction`].
pub enum InboundActionV {
    HandleRequest { request_seq: u64, request: RequestV },
    HandleResponse { request_seq: u64, response: ResponseV },
    DropEvent,
    DropInvalid { error: crate::error::ErrorV },
}

impl DeepView for InboundAction {
    type V = InboundActionV;

    open spec fn deep_view(&self) -> InboundActionV {
        match self {
            InboundAction::HandleRequest { request_seq, request } => {
                InboundActionV::HandleRequest {
                    request_seq: *request_seq,
                    request: request.deep_view(),
                }
            },
            InboundAction::HandleResponse { request_seq, response } => {
                InboundActionV::HandleResponse {
                    request_seq: *request_seq,
                    response: response.deep_view(),
                }
            },
            InboundAction::DropEvent => InboundActionV::DropEvent,
            InboundAction::DropInvalid { error } => InboundActionV::DropInvalid {
                error: error.deep_view(),
            },
        }
    }
}

/// What dispatching an inbound envelope decides.
pub open spec fn spec_dispatch_inbound(m: ProtocolMessageV) -> InboundActionV {
    match m {
        ProtocolMessageV::Request(rq) => match RequestV::dec(rq) {
            Ok(request) => InboundActionV::HandleRequest { request_seq: rq.seq, request },
            Err(e) => InboundActionV::DropInvalid { error: e },
        },
        ProtocolMessageV::Response(re) => match ResponseV::dec(re) {
            Ok(response) => InboundActionV::HandleResponse {
                request_seq: re.request_seq,
                response,
            },
            Err(e) => InboundActionV::DropInvalid { error: e },
        },
        ProtocolMessageV::Event(_) => InboundActionV::DropEvent,
    }
}

/// Decides what the inbound loop does with one decoded envelope: a request
/// goes to the backend under its own `seq`, a response to a reverse request
/// goes to the backend under the `request_seq` it answers, an event is
/// dropped, and a message that does not decode is dropped with its error.
pub fn dispatch_inbound(m: ProtocolMessage) -> (r: InboundAction)
    ensures
        r.deep_view() == spec_dispatch_inbound(m.deep_view()),
{
    match m {
        ProtocolMessage::Request(rq) => match Request::try_from(&rq) {
            Ok(request) => InboundAction::HandleRequest { request_seq: rq.seq, request },
            Err(error) => InboundAction::DropInvalid { error },
        },
        ProtocolMessage::Response(re) => match Response::try_from(&re) {
            Ok(response) => InboundAction::HandleResponse {
                request_seq: re.request_seq,
                response,
            },
            Err(error) => InboundAction::DropInvalid { error },
        },
        ProtocolMessage::Event(_) => InboundAction::DropEvent,
    }
}

/// The framed bytes a response puts on the wire.
pub open spec fn spec_response_wire(response: ResponseV, seq: u64, request_seq: u64) -> Seq<u8> {
    adapter_message(
        ProtocolMessageV::Response(
            crate::protocol::ProtocolResponseV {
                seq,
                request_seq,
                command: response.command(),
                result: response.result(),
            },
        ),
    )
}

/// Frames what the backend answered, if it answered: a backend that returns
/// nothing leaves no outbound message for that `request_seq`, and the
/// reactor never invents one.
pub fn response_outbound(response: Option<Response>, seq: u64, request_seq: u64) -> (r: Option<
    Vec<u8>,
>)
    ensures
        response is None <==> r is None,
        r matches Some(bytes) ==> bytes@ == spec_response_wire(
            response->0.deep_view(),
            seq,
            request_seq,
        ),
{
    match response {
        None => None,
        Some(response) => {
            let envelope = response.into_protocol(seq, request_seq);
            Some(ProtocolMessage::Response(envelope).into_adapter_message())
        },
    }
}

/// The framed bytes an event puts on the wire.
pub open spec fn spec_event_wire(ev: crate::event::EventV, seq: u64) -> Seq<u8> {
    adapter_message(
        ProtocolMessageV::Event(
            crate::protocol::ProtocolEventV { seq, event: ev.name(), body: ev.body() },
        ),
    )
}

/// Frames one outbound event under the sequence number it was allocated.
pub fn event_outbound(ev: Event, seq: u64) -> (r: Vec<u8>)
    ensures
        r@ == spec_event_wire(ev.deep_view(), seq),
{
    let envelope = ev.into_protocol(seq);
    ProtocolMessage::Event(envelope).into_adapter_message()
}

/// A reverse request queued by the backend: sent under `id` where the
/// backend chose one, else under the next free sequence number.
#[derive(Debug, PartialEq, Eq)]
pub struct ReactorReverseRequest {
    pub id: Option<u64>,
    pub request: ReverseRequest,
}

/// The framed bytes a reverse request puts on the wire.
pub open spec fn spec_reverse_wire(rr: ReverseRequestV, seq: u64) -> Seq<u8> {
    adapter_message(
        ProtocolMessageV::Request(
            crate::protocol::ProtocolRequestV { seq, command: rr.command(), arguments: rr.args() },
        ),
    )
}

/// Frames one queued reverse request: the backend's own id wins; otherwise
/// the counter hands out the next sequence number.
pub fn reverse_request_outbound(rr: ReactorReverseRequest, counter: &mut SeqCounter) -> (r: (
    u64,
    Vec<u8>,
))
    requires
        old(counter).wf(),
        old(counter).next < u64::MAX,
    ensures
        final(counter).wf(),
        rr.id matches Some(id) ==> r.0 == id && *final(counter) == *old(counter),
        rr.id is None ==> r.0 == old(counter).next && final(counter).next == old(counter).next + 1,
        r.1@ == spec_reverse_wire(rr.request.deep_view(), r.0),
{
    let seq = match rr.id {
        Some(id) => id,
        None => counter.take_next(),
    };
    let envelope = rr.request.into_protocol(seq);
    let bytes = ProtocolMessage::Request(envelope).into_adapter_message();
    (seq, bytes)
}

/// A run of handed-out sequence numbers is strictly increasing: later calls
/// of [`SeqCounter::take_next`] return strictly greater numbers, whichever
/// outbound task makes them.
pub proof fn lemma_seq_strictly_increasing(before: SeqCounter, mid: SeqCounter, first: u64, second: u64)
    requires
        before.wf(),
        first == before.next,
        mid.next > before.next,
        second == mid.next,
    ensures
        second > first,
        first >= 1,
{
}

} // verus!
