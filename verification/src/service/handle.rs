//! The part of a proxy that every interface shares.

use crate::forwarder::ServiceObjectId;
use crate::forwarder::NULL_ID;
use crate::packet::has_header;
use crate::packet::lemma_header_fields;
use crate::packet::header_bytes;
use crate::packet::payload_of;
use crate::packet::Packet;
use crate::packet::PacketView;
use crate::packet::UNDECIDED_SLOT;
use crate::port::Port;
use crate::port::WeakPort;
use crate::service::export_import::HandleToExchange;
use crate::service::serde_support::remove_port;
use crate::service::serde_support::set_port;
use crate::service::serde_support::PortStack;
use crate::service::serde_support::PORT_STACK_LIMIT;
use crate::service::MethodId;
use crate::transport::TransportError;
use vstd::prelude::*;
use vstd::slice::slice_to_vec;

verus! {

/// The identifier of a remote object together with the port that reaches it.
#[derive(Debug)]
pub struct Handle<P> {
    pub id: ServiceObjectId,
    pub port: WeakPort<P>,
}

/// What a call returns for each outcome of the port's `call`: the payload of
/// a response, the error of a failed call, and `Custom` for a response that is
/// too short to have a header.
pub open spec fn response_payload(response: Result<Seq<u8>, TransportError>) -> Result<
    Seq<u8>,
    TransportError,
> {
    match response {
        Ok(bytes) => if has_header(bytes) {
            Ok(payload_of(bytes))
        } else {
            Err(TransportError::Custom)
        },
        Err(err) => Err(err),
    }
}

/// Whether `result` is what a call returns when the port's `call` returned
/// `response`.
pub open spec fn is_response_data(
    response: Result<Packet, TransportError>,
    result: Result<Vec<u8>, TransportError>,
) -> bool {
    match response {
        Ok(packet) => match response_payload(Ok(packet.wire())) {
            Ok(payload) => (result matches Ok(data) && data@ == payload),
            Err(err) => result == Err::<Vec<u8>, TransportError>(err),
        },
        Err(err) => result == Err::<Vec<u8>, TransportError>(err),
    }
}

impl<P> Handle<P> {
    /// Whether this is the handle of a null proxy, which stands for no object.
    pub open spec fn is_null(&self) -> bool {
        self.id == NULL_ID
    }

    pub fn new(imported_id: HandleToExchange, port: WeakPort<P>) -> (handle: Self)
        ensures
            handle.id == imported_id.0,
            handle.port == port,
    {
        Handle { id: imported_id.0, port }
    }

    /// The request for a call of `method` with the encoded arguments `args`.
    pub fn request(&self, method: MethodId, args: &[u8]) -> (packet: Packet)
        requires
            !self.is_null(),
            args@.len() + 12 <= usize::MAX,
        ensures
            packet.wire() == header_bytes(UNDECIDED_SLOT, self.id, method) + args@,
    {
        Packet::new_request(self.id, method, args)
    }

    /// What a call returns, given what the port's `call` returned.
    pub fn response_data(response: Result<Packet, TransportError>) -> (result: Result<
        Vec<u8>,
        TransportError,
    >)
        ensures
            is_response_data(response, result),
    {
        match response {
            Ok(packet) => {
                if packet.buffer().len() < 12 {
                    Err(TransportError::Custom)
                } else {
                    Ok(slice_to_vec(packet.data()))
                }
            },
            Err(err) => Err(err),
        }
    }

    /// Calls `method` on the remote object with the encoded arguments
    /// `args` and returns the encoded return value. This handle's port is the
    /// current port while the call is made.
    pub fn call(&self, stack: &mut PortStack<WeakPort<P>>, method: MethodId, args: &[u8]) -> (result:
        Result<Vec<u8>, TransportError>) where P: Port + Clone
        requires
            !self.is_null(),
            self.port is Some,
            old(stack)@.len() < PORT_STACK_LIMIT,
            args@.len() + 12 <= usize::MAX,
        ensures
            final(stack)@ == old(stack)@,
            exists|request: PacketView, response: Result<Packet, TransportError>|
                request.wire() == header_bytes(UNDECIDED_SLOT, self.id, method) + args@
                    && P::call.ensures((&self.port->0, request), response) && is_response_data(
                    response,
                    result,
                ),
    {
        set_port(stack, self.port.clone());
        let packet = self.request(method, args);
        proof {
            lemma_header_fields(UNDECIDED_SLOT, self.id, method, args@);
        }
        let response = match &self.port {
            Some(port) => port.call(packet.view()),
            None => vstd::pervasive::unreached(),
        };
        let result = Self::response_data(response);
        remove_port(stack);
        assert(stack@ =~= old(stack)@);
        result
    }

    /// Whether giving up this handle asks for a deletion: not for a null
    /// proxy.
    pub fn needs_delete(&self) -> (needed: bool)
        ensures
            needed == !self.is_null(),
    {
        self.id != NULL_ID
    }

    /// Gives up the handle, as a proxy does when it is dropped: asks the port
    /// to have the remote object deleted, unless this is a null proxy.
    pub fn release(self) where P: Port
        requires
            !self.is_null() ==> self.port is Some,
        ensures
            !self.is_null() ==> P::delete_request.ensures((&self.port->0, self.id), ()),
    {
        if self.id != NULL_ID {
            match &self.port {
                Some(port) => port.delete_request(self.id),
                None => {},
            }
        }
    }
}

} // verus!
