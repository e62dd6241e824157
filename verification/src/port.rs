//! The port: what the rest of the framework talks to a connection end through.

pub mod client;
pub mod server;
pub mod types;

pub use self::types::Handler;

use crate::context::Config;
use crate::forwarder::ServiceForwarder;
use crate::forwarder::ServiceObjectId;
use crate::forwarder::DELETE_REQUEST;
use crate::packet::has_header;
use crate::packet::header_bytes;
use crate::packet::Packet;
use crate::packet::PacketView;
use crate::packet::UNDECIDED_SLOT;
use crate::port::client::Client;
use crate::service::export_import::HandleToExchange;
use crate::service::export_import::Skeleton;
use crate::service::Dispatch;
use crate::transport::TransportError;
use std::sync::Arc;
use vstd::prelude::*;

verus! {

/// A connection end as proxies and exported objects see it.
pub trait Port {
    /// The dispatchers that this port registers.
    type Dispatcher: Dispatch;

    /// Performs a call: sends the request and returns the response to it.
    fn call(&self, packet: PacketView) -> Result<Packet, TransportError>
        requires
            has_header(packet.wire()),
    ;

    /// Asks the other side to delete the object that it exported under `id`.
    fn delete_request(&self, id: ServiceObjectId);

    /// Registers an object for export and returns the handle to pass on.
    fn register_service(&self, service_object: Arc<Self::Dispatcher>) -> HandleToExchange;
}

/// A reference to a port that does not keep the port alive: `None` once the
/// port is gone, and for a reference that never pointed to a port.
pub type WeakPort<P> = Option<P>;

/// A reference that points to no port.
pub fn null_weak_port<P>() -> (port: WeakPort<P>)
    ensures
        port is None,
{
    None
}

/// The bytes of the request that asks for the object `id` to be deleted,
/// before a call slot is assigned to it.
pub open spec fn delete_request_bytes(id: ServiceObjectId) -> Seq<u8> {
    header_bytes(UNDECIDED_SLOT, id, DELETE_REQUEST)
}

/// The port of a connection end: its registry, its client, and whether
/// proxies that are dropped still ask for their objects to be deleted.
pub struct BasicPort<D: Dispatch, P: Clone> {
    pub registry: ServiceForwarder<D, P>,
    /// `None` only after `shutdown`.
    pub client: Option<Client>,
    /// While this is set, dropping a proxy sends nothing. It is meant for the
    /// time when the connection is going down and the objects on the other
    /// side no longer matter.
    pub no_drop: bool,
}

impl<D: Dispatch, P: Clone> BasicPort<D, P> {
    /// The registry and the client, if there still is one, are well formed.
    pub open spec fn wf(&self) -> bool {
        &&& self.registry.wf()
        &&& self.client matches Some(client) ==> client.wf()
    }

    /// A port whose registry holds the meta service and the initial service,
    /// and whose proxies ask for deletion when they are dropped.
    pub fn new(
        config: Config,
        client: Client,
        meta_sevice: Skeleton<D>,
        initial_service: Skeleton<D>,
        port: P,
    ) -> (basic: Self)
        requires
            client.wf(),
        ensures
            basic.wf(),
            basic.client == Some(client),
            !basic.no_drop,
            basic.registry.objects() == Map::<ServiceObjectId, Arc<D>>::empty().insert(
                crate::forwarder::META_SERVICE_OBJECT_ID,
                meta_sevice.raw,
            ).insert(crate::forwarder::INITIAL_SERVICE_OBJECT_ID, initial_service.raw),
            basic.registry.free_ids() == crate::forwarder::initial_free_ids(
                config.maximum_services_num as u32,
            ),
            basic.registry.port() == port,
    {
        Self {
            registry: ServiceForwarder::new(config, meta_sevice, initial_service, port),
            client: Some(client),
            no_drop: false,
        }
    }

    pub fn get_registry(&self) -> (registry: &ServiceForwarder<D, P>)
        ensures
            *registry == self.registry,
    {
        &self.registry
    }

    /// Registers an object for export and returns the handle to pass on.
    pub fn register_service(&mut self, service_object: Arc<D>) -> (handle: HandleToExchange)
        requires
            old(self).wf(),
            old(self).registry.free_ids().len() > 0,
        ensures
            final(self).wf(),
            handle.0 == old(self).registry.free_ids()[0],
            !old(self).registry.objects().contains_key(handle.0),
            final(self).registry.objects() == old(self).registry.objects().insert(
                handle.0,
                service_object,
            ),
            final(self).registry.free_ids() == old(self).registry.free_ids().drop_first(),
            final(self).registry.port() == old(self).registry.port(),
            final(self).client == old(self).client,
            final(self).no_drop == old(self).no_drop,
    {
        HandleToExchange(self.registry.register_service_object(service_object))
    }

    /// The request to send when the proxy of the object `id` is dropped: none
    /// while deletion is switched off, else the delete request for `id`.
    pub fn delete_request(&self, id: ServiceObjectId) -> (request: Option<Packet>)
        ensures
            self.no_drop ==> request is None,
            !self.no_drop ==> (request matches Some(packet) && packet.wire() == delete_request_bytes(
                id,
            )),
    {
        if self.no_drop {
            return None;
        }
        let args: Vec<u8> = Vec::new();
        let packet = Packet::new_request(id, DELETE_REQUEST, args.as_slice());
        assert(packet.wire() =~= delete_request_bytes(id));
        Some(packet)
    }

    /// Drops every registered object.
    pub fn clear_registry(&mut self)
        requires
            old(self).wf(),
        ensures
            final(self).wf(),
            final(self).registry.objects() == Map::<ServiceObjectId, Arc<D>>::empty(),
            final(self).registry.free_ids() == old(self).registry.free_ids(),
            final(self).registry.port() == old(self).registry.port(),
            final(self).client == old(self).client,
            final(self).no_drop == old(self).no_drop,
    {
        self.registry.clear();
    }

    /// Gives up the client, after telling it that the transport has
    /// terminated. Calls that still wait fail from now on.
    pub fn shutdown(&mut self) -> (client: Client)
        requires
            old(self).wf(),
            old(self).client is Some,
        ensures
            final(self).wf(),
            final(self).client is None,
            final(self).registry == old(self).registry,
            final(self).no_drop == old(self).no_drop,
            client.wf(),
            client.is_terminated(),
            client.slot_count() == old(self).client->0.slot_count(),
            client.free_slots() == old(self).client->0.free_slots(),
    {
        let mut client = self.client.take().unwrap();
        client.shutdown();
        client
    }

    /// Switches deletion off: from now on dropping a proxy sends nothing.
    pub fn set_no_drop(&mut self)
        ensures
            final(self).no_drop,
            final(self).registry == old(self).registry,
            final(self).client == old(self).client,
    {
        self.no_drop = true;
    }
}

} // verus!
