//! Splitting the inbound packets into requests and responses.

use crate::packet::has_header;
use crate::packet::PacketView;
use crate::transport::TransportError;
use vstd::prelude::*;

verus! {

/// Which of the two inbound streams a packet belongs to.
#[derive(Debug, PartialEq, Eq, Structural)]
pub enum ForwardResult {
    Request,
    Response,
}

/// A rule that tells requests from responses.
pub trait Forward {
    /// The stream that the rule assigns to a packet.
    spec fn stream_of(bytes: Seq<u8>) -> ForwardResult;

    fn forward(data: PacketView) -> (result: ForwardResult)
        requires
            has_header(data.wire()),
        ensures
            result == Self::stream_of(data.wire()),
    ;
}

/// What the receiver does with one outcome of a `recv` on the transport.
#[derive(Debug)]
pub enum Multiplexed {
    /// Hand the packet to the server.
    Request(Vec<u8>),
    /// Hand the packet to the client.
    Response(Vec<u8>),
    /// Hand the error to both the server and the client, once, and stop
    /// receiving.
    Closed(TransportError),
}

/// One step of the receiver: classifies what the transport handed over.
pub fn receiver_step<Forwarder: Forward>(received: Result<Vec<u8>, TransportError>) -> (step: Multiplexed)
    requires
        received matches Ok(message) ==> has_header(message@),
    ensures
        received matches Err(err) ==> step == Multiplexed::Closed(err),
        received matches Ok(message) ==> match Forwarder::stream_of(message@) {
            ForwardResult::Request => step == Multiplexed::Request(message),
            ForwardResult::Response => step == Multiplexed::Response(message),
        },
{
    let message = match received {
        Err(err) => {
            return Multiplexed::Closed(err);
        },
        Ok(data) => data,
    };

    let forward_result = Forwarder::forward(PacketView::new(message.as_slice()));

    match forward_result {
        ForwardResult::Request => Multiplexed::Request(message),
        ForwardResult::Response => Multiplexed::Response(message),
    }
}

/// The receiver of a connection end: it takes what the transport receives
/// and hands each packet to its stream, until the transport fails or the
/// receiver is shut down. After that it is drained and takes nothing more, so
/// the two streams see the end of the transport once.
#[derive(Debug)]
pub struct Multiplexer {
    drained: bool,
}

impl Multiplexer {
    /// Whether the receiver has stopped.
    pub closed spec fn is_drained(&self) -> bool {
        self.drained
    }

    /// A receiver that has not stopped.
    pub fn multiplex() -> (multiplexer: Self)
        ensures
            !multiplexer.is_drained(),
    {
        Multiplexer { drained: false }
    }

    /// Takes one outcome of a `recv` on the transport: see `receiver_step`. An
    /// error drains the receiver.
    pub fn receive<Forwarder: Forward>(&mut self, received: Result<Vec<u8>, TransportError>) -> (step:
        Multiplexed)
        requires
            !old(self).is_drained(),
            received matches Ok(message) ==> has_header(message@),
        ensures
            final(self).is_drained() == (received is Err),
            received matches Err(err) ==> step == Multiplexed::Closed(err),
            received matches Ok(message) ==> match Forwarder::stream_of(message@) {
                ForwardResult::Request => step == Multiplexed::Request(message),
                ForwardResult::Response => step == Multiplexed::Response(message),
            },
    {
        let step = receiver_step::<Forwarder>(received);
        match &step {
            Multiplexed::Closed(_) => {
                self.drained = true;
            },
            _ => {},
        }
        step
    }

    /// Stops the receiver.
    pub fn shutdown(&mut self)
        ensures
            final(self).is_drained(),
    {
        self.drained = true;
    }

    /// Whether the receiver has stopped.
    pub fn has_drained(&self) -> (drained: bool)
        ensures
            drained == self.is_drained(),
    {
        self.drained
    }
}

} // verus!
