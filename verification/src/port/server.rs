//! The serving side of a connection end.
//!
//! The server takes requests off the transport and has each of them
//! served by a worker. It counts the calls that workers are still serving, so
//! that after the transport has closed it finishes only when the last response
//! has been written.

use crate::packet::header_bytes;
use crate::packet::is_request;
use crate::packet::is_response;
use crate::packet::lemma_header_fields;
use crate::packet::payload_of;
use crate::packet::method_of;
use crate::packet::object_of;
use crate::packet::slot_of;
use crate::packet::Packet;
use crate::packet::PacketView;
use crate::packet::SLOT_CALL_OR_RETURN_INDICATOR;
use crate::port::types::Handler;
use crate::transport::TransportError;
use crate::transport::TransportSend;
use vstd::prelude::*;

verus! {

/// The bytes of the response to `request` whose payload is `payload`: the
/// header echoes the object and the method, and carries the request's slot
/// with the request bit cleared.
pub open spec fn response_bytes(request: Seq<u8>, payload: Seq<u8>) -> Seq<u8>
    recommends
        is_request(request),
{
    header_bytes(
        (slot_of(request) - SLOT_CALL_OR_RETURN_INDICATOR) as u32,
        object_of(request),
        method_of(request),
    ) + payload
}

/// The response to a request is a response, names the request's slot without
/// the request bit, echoes its object and method, and carries the payload it
/// was built with.
pub proof fn lemma_response_answers_request(request: Seq<u8>, payload: Seq<u8>)
    requires
        is_request(request),
    ensures
        is_response(response_bytes(request, payload)),
        slot_of(response_bytes(request, payload)) + SLOT_CALL_OR_RETURN_INDICATOR == slot_of(request),
        object_of(response_bytes(request, payload)) == object_of(request),
        method_of(response_bytes(request, payload)) == method_of(request),
        payload_of(response_bytes(request, payload)) == payload,
{
    lemma_header_fields(
        (slot_of(request) - SLOT_CALL_OR_RETURN_INDICATOR) as u32,
        object_of(request),
        method_of(request),
        payload,
    );
}

/// The responses to two requests that went out under different slots come
/// back under different slots: neither can be taken for the other.
pub proof fn lemma_responses_keep_apart(first: Seq<u8>, second: Seq<u8>, payload_first: Seq<u8>, payload_second: Seq<u8>)
    requires
        is_request(first),
        is_request(second),
        slot_of(first) != slot_of(second),
    ensures
        slot_of(response_bytes(first, payload_first)) != slot_of(
            response_bytes(second, payload_second),
        ),
{
    lemma_response_answers_request(first, payload_first);
    lemma_response_answers_request(second, payload_second);
}

/// What the server does with one outcome of a `recv` on its request stream.
#[derive(Debug)]
pub enum ServerStep {
    /// Have a worker serve this request.
    Dispatch(Packet),
    /// The stream has closed: take no more requests, and finish once the calls
    /// that are still served are done.
    Drain,
}

/// What the serving side keeps track of: whether requests still come in, and
/// how many of them workers are serving.
#[derive(Debug)]
pub struct Server {
    active_calls: i32,
    receiving: bool,
}

impl Server {
    /// How many calls workers are serving.
    pub closed spec fn active_calls(&self) -> int {
        self.active_calls as int
    }

    /// Whether the request stream is still open.
    pub closed spec fn is_receiving(&self) -> bool {
        self.receiving
    }

    /// The count of served calls is never negative.
    pub open spec fn wf(&self) -> bool {
        self.active_calls() >= 0
    }

    /// A server that serves no call yet and takes requests.
    pub fn new() -> (server: Self)
        ensures
            server.wf(),
            server.active_calls() == 0,
            server.is_receiving(),
    {
        Server { active_calls: 0, receiving: true }
    }

    /// Takes one outcome of a `recv`. A request counts as served from now on
    /// and is handed out for dispatch; an error closes the stream.
    pub fn receive(&mut self, received: Result<Vec<u8>, TransportError>) -> (step: ServerStep)
        requires
            old(self).wf(),
            old(self).is_receiving(),
            old(self).active_calls() < i32::MAX,
        ensures
            final(self).wf(),
            received matches Ok(request) ==> {
                &&& step matches ServerStep::Dispatch(packet)
                &&& packet.wire() == request@
                &&& final(self).active_calls() == old(self).active_calls() + 1
                &&& final(self).is_receiving()
            },
            received is Err ==> {
                &&& step is Drain
                &&& final(self).active_calls() == old(self).active_calls()
                &&& !final(self).is_receiving()
            },
    {
        match received {
            Ok(request) => {
                let packet = Packet::new_from_buffer(request);
                self.active_calls += 1;
                ServerStep::Dispatch(packet)
            },
            Err(_err) => {
                self.receiving = false;
                ServerStep::Drain
            },
        }
    }

    /// Stops taking requests.
    pub fn shutdown(&mut self)
        ensures
            !final(self).is_receiving(),
            final(self).active_calls() == old(self).active_calls(),
            old(self).wf() ==> final(self).wf(),
    {
        self.receiving = false;
    }

    /// Whether a worker is still serving a call.
    pub fn has_active_calls(&self) -> (active: bool)
        ensures
            active == (self.active_calls() > 0),
    {
        self.active_calls > 0
    }

    /// Whether one more call can be counted.
    pub fn has_room(&self) -> (room: bool)
        ensures
            room == (self.active_calls() < i32::MAX),
    {
        self.active_calls < i32::MAX
    }

    /// Records that a worker is done with a call.
    pub fn call_finished(&mut self)
        requires
            old(self).active_calls() > 0,
        ensures
            final(self).active_calls() == old(self).active_calls() - 1,
            final(self).is_receiving() == old(self).is_receiving(),
            final(self).wf(),
    {
        self.active_calls -= 1;
    }

    /// Whether the server is done: its stream has closed and no worker is
    /// still serving a call.
    pub fn is_finished(&self) -> (finished: bool)
        ensures
            finished == (!self.is_receiving() && self.active_calls() == 0),
    {
        !self.receiving && self.active_calls == 0
    }
}

/// The response to `packet` with `response` as its payload.
pub fn build_response(packet: &Packet, response: &[u8]) -> (response_packet: Packet)
    requires
        is_request(packet.wire()),
    ensures
        response_packet.wire() == response_bytes(packet.wire(), response@),
{
    let mut response_packet = Packet::new_response_from_request(packet.view());
    response_packet.append_data(response);
    response_packet
}

/// Serves `packet` with `handler` and returns the response to send. Its header
/// answers the request's; its payload is whatever the handler returned.
pub fn respond<H: Handler>(packet: &Packet, handler: &H) -> (response_packet: Packet)
    requires
        is_request(packet.wire()),
    ensures
        exists|input: PacketView, output: Vec<u8>|
            input.wire() == packet.wire() && H::handle.ensures((handler, input), output)
                && response_packet.wire() == response_bytes(packet.wire(), output@),
{
    let response = handler.handle(packet.view());
    build_response(packet, response.as_slice())
}

/// Serves one request from end to end: has `handler` serve it, sends the
/// response, and records that the call is done, whether or not the send
/// succeeded.
pub fn handle_single_call<H: Handler, S: TransportSend>(
    packet: Packet,
    handler: &H,
    transport_send: &S,
    server: &mut Server,
)
    requires
        is_request(packet.wire()),
        old(server).active_calls() > 0,
    ensures
        final(server).active_calls() == old(server).active_calls() - 1,
        final(server).is_receiving() == old(server).is_receiving(),
        final(server).wf(),
        exists|input: PacketView, output: Vec<u8>, sent: &[u8], outcome: Result<(), TransportError>|
            input.wire() == packet.wire() && H::handle.ensures((handler, input), output) && sent@
                == response_bytes(packet.wire(), output@) && S::send.ensures(
                (transport_send, sent, None::<std::time::Duration>),
                outcome,
            ),
{
    let response_packet = respond(&packet, handler);
    if let Err(_err) = transport_send.send(response_packet.buffer(), None) {
        server.call_finished();
        return ;
    }
    server.call_finished();
}

} // verus!
