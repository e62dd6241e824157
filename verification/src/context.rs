//! One end of a connection.
//!
//! A context owns the registry of the objects it exports, the client that
//! makes its calls and the server that answers the other side's. It runs until
//! the transport terminates, a firm close completes or it is shut down; while
//! it drains, it takes nothing new and waits for the calls it still serves;
//! then it is closed.

use crate::forwarder::initial_free_ids;
use crate::forwarder::Forwarding;
use crate::forwarder::ServiceForwarder;
use crate::forwarder::ServiceObjectId;
use crate::forwarder::DELETE_REQUEST;
use crate::forwarder::INITIAL_SERVICE_OBJECT_ID;
use crate::forwarder::META_SERVICE_OBJECT_ID;
use crate::packet::has_header;
use crate::packet::is_request;
use crate::packet::is_response;
use crate::packet::method_of;
use crate::packet::object_of;
use crate::packet::payload_of;
use crate::packet::slot_of;
use crate::packet::Packet;
use crate::packet::PacketView;
use crate::packet::SlotId;
use crate::packet::SlotType;
use crate::packet::SLOT_CALL_OR_RETURN_INDICATOR;
use crate::port::client::lemma_request_carries_slot;
use crate::port::client::Client;
use crate::port::delete_request_bytes;
use crate::port::server::build_response;
use crate::port::server::lemma_response_answers_request;
use crate::port::server::response_bytes;
use crate::port::server::Server;
use crate::port::server::ServerStep;
use crate::port::BasicPort;
use crate::port::WeakPort;
use crate::service::export_import::HandleToExchange;
use crate::service::export_import::Skeleton;
use crate::service::handle::Handle;
use crate::service::serde_support::remove_port;
use crate::service::serde_support::set_port;
use crate::service::serde_support::PortStack;
use crate::service::serde_support::ServiceToExport;
use crate::service::serde_support::PORT_STACK_LIMIT;
use crate::service::serde_support::ServiceToImport;
use crate::service::Dispatch;
use crate::service::MethodId;
use crate::service::Service;
use crate::transport::multiplex::Forward;
use crate::transport::multiplex::ForwardResult;
use crate::transport::multiplex::Multiplexed;
use crate::transport::multiplex::Multiplexer;
use crate::transport::TransportError;
use std::sync::Arc;
use vstd::prelude::*;

verus! {

/// How one end of a connection is set up.
#[derive(Debug)]
pub struct Config {
    /// A label for the threads that serve this end.
    pub name: String,
    /// How many calls may be in flight at once.
    pub call_slots: usize,
    /// How long each phase of a call may take; `None` waits without limit.
    pub call_timeout: Option<std::time::Duration>,
    /// How many objects this end can have exported at once.
    pub maximum_services_num: usize,
}

/// The duration of `millis` milliseconds.
pub uninterp spec fn duration_of_millis(millis: u64) -> std::time::Duration;

/// Calls `Duration::from_millis`, which makes the duration of that many
/// milliseconds: the same duration for the same number.
#[verifier::external_body]
fn duration_from_millis(millis: u64) -> (duration: std::time::Duration)
    ensures
        duration == duration_of_millis(millis),
{
    std::time::Duration::from_millis(millis)
}

impl Clone for Config {
    fn clone(&self) -> (config: Self)
        ensures
            config == *self,
    {
        Self {
            name: self.name.clone(),
            call_slots: self.call_slots,
            call_timeout: self.call_timeout,
            maximum_services_num: self.maximum_services_num,
        }
    }
}

impl Config {
    /// The usual setup: 512 call slots, room for 65536 exported objects, and a
    /// call timeout of one second.
    pub fn default_setup() -> (config: Self)
        ensures
            config.name@ == "my rto"@,
            config.call_slots == 512,
            config.maximum_services_num == 65536,
            config.call_timeout == Some(duration_of_millis(1000)),
    {
        Self {
            name: "my rto".to_owned(),
            call_slots: 512,
            maximum_services_num: 65536,
            call_timeout: Some(duration_from_millis(1000)),
        }
    }
}

/// A meeting point for a fixed number of parties: it opens once all of them
/// have arrived.
#[derive(Debug)]
pub struct Barrier {
    parties: usize,
    arrived: usize,
}

impl Barrier {
    /// How many parties the barrier waits for.
    pub closed spec fn parties(&self) -> nat {
        self.parties as nat
    }

    /// How many parties have arrived.
    pub closed spec fn arrived(&self) -> nat {
        self.arrived as nat
    }

    /// Whether every party has arrived.
    pub open spec fn is_open(&self) -> bool {
        self.arrived() >= self.parties()
    }

    /// No more parties have arrived than the barrier waits for.
    pub open spec fn wf(&self) -> bool {
        self.arrived() <= self.parties()
    }

    /// A barrier for `n` parties, none of which has arrived.
    pub fn new(n: usize) -> (barrier: Self)
        ensures
            barrier.wf(),
            barrier.parties() == n,
            barrier.arrived() == 0,
    {
        Barrier { parties: n, arrived: 0 }
    }

    /// Records the arrival of one more party and tells whether the barrier is
    /// open now.
    pub fn wait(&mut self) -> (open: bool)
        requires
            old(self).wf(),
            !old(self).is_open(),
        ensures
            final(self).wf(),
            final(self).parties() == old(self).parties(),
            final(self).arrived() == old(self).arrived() + 1,
            open == final(self).is_open(),
    {
        self.arrived += 1;
        self.arrived >= self.parties
    }

    /// Whether every party has arrived.
    pub fn has_opened(&self) -> (open: bool)
        ensures
            open == self.is_open(),
    {
        self.arrived >= self.parties
    }
}

/// The interface of the built-in service that coordinates shutdown.
pub trait MetaService: Service {
    fn firm_close(&mut self);
}

/// The built-in service: a call of its one method is the other side's arrival
/// at this side's firm-close barrier.
#[derive(Debug)]
pub struct MetaServiceImpl {
    barrier: Barrier,
    called: bool,
}

impl MetaServiceImpl {
    /// The barrier that this service arrives at.
    pub closed spec fn barrier(&self) -> Barrier {
        self.barrier
    }

    /// Whether the other side has called.
    pub closed spec fn was_called(&self) -> bool {
        self.called
    }

    /// The barrier is well formed.
    pub open spec fn wf(&self) -> bool {
        self.barrier().wf()
    }

    /// The service that arrives at `barrier` when it is called.
    pub fn new(barrier: Barrier) -> (service: Self)
        ensures
            service.barrier() == barrier,
            !service.was_called(),
    {
        Self { barrier, called: false }
    }
}

impl Service for MetaServiceImpl {

}

impl MetaService for MetaServiceImpl {
    /// The other side's call. A second call changes nothing.
    fn firm_close(&mut self)
        ensures
            final(self).was_called(),
            final(self).barrier().parties() == old(self).barrier().parties(),
            old(self).wf() ==> final(self).wf(),
            old(self).was_called() ==> final(self).barrier() == old(self).barrier(),
            old(self).wf() && !old(self).was_called() && !old(self).barrier().is_open() ==> final(
                self
            ).barrier().arrived() == old(self).barrier().arrived() + 1,
    {
        if !self.called && !self.barrier.has_opened() && self.barrier.arrived <= self.barrier.parties {
            let _ = self.barrier.wait();
        }
        self.called = true;
    }
}

/// The rule that tells requests from responses by the top bit of the slot.
pub struct PacketForward;

impl Forward for PacketForward {
    open spec fn stream_of(bytes: Seq<u8>) -> ForwardResult {
        if slot_of(bytes) >= SLOT_CALL_OR_RETURN_INDICATOR {
            ForwardResult::Request
        } else {
            ForwardResult::Response
        }
    }

    fn forward(packet: PacketView) -> (result: ForwardResult) {
        match packet.slot().get_type() {
            SlotType::Request => ForwardResult::Request,
            SlotType::Response => ForwardResult::Response,
        }
    }
}

/// Where a context is in its life.
#[derive(Debug, Clone, Copy, PartialEq, Eq, Structural)]
pub enum ContextState {
    /// The context makes and serves calls.
    Running,
    /// The context has stopped taking requests and making calls, and waits
    /// for the calls that workers still serve.
    Draining,
    /// Nothing is left to do.
    Closed,
}

/// What a context did with one outcome of a `recv` on the transport, and what
/// is left for its driver to do.
pub enum ContextStep<D: Dispatch> {
    /// A response has come in for the call that holds this slot.
    Response(SlotId),
    /// A delete request has been served: send this response.
    Reply(Packet),
    /// A call has come in: run `handler` on `method` and the payload of
    /// `request`, then give what it returned to `respond`.
    Dispatch { request: Packet, handler: Arc<D>, method: MethodId },
    /// The transport has failed with this error, and the context has left the
    /// running state.
    Closed(TransportError),
}

/// One end of a connection.
pub struct Context<D: Dispatch, P: Clone> {
    config: Config,
    state: ContextState,
    multiplexer: Multiplexer,
    port: BasicPort<D, P>,
    server: Server,
    meta_service: MetaServiceImpl,
    firm_close_called: bool,
}

impl<D: Dispatch, P: Clone> Context<D, P> {
    /// Where the context is in its life.
    pub closed spec fn state(&self) -> ContextState {
        self.state
    }

    /// The registry of the objects that this context exports.
    pub closed spec fn registry(&self) -> ServiceForwarder<D, P> {
        self.port.registry
    }

    /// The client that makes this context's calls; `None` once closed.
    pub closed spec fn client(&self) -> Option<Client> {
        self.port.client
    }

    /// The receiver that feeds the client and the server.
    pub closed spec fn multiplexer(&self) -> Multiplexer {
        self.multiplexer
    }

    /// The server that answers the other side's calls.
    pub closed spec fn server(&self) -> Server {
        self.server
    }

    /// The built-in service that the other side calls to close firmly.
    pub closed spec fn meta_service(&self) -> MetaServiceImpl {
        self.meta_service
    }

    /// Whether this side has asked for a firm close.
    pub closed spec fn firm_close_called(&self) -> bool {
        self.firm_close_called
    }

    /// Whether dropped proxies send no delete requests.
    pub closed spec fn garbage_collection_disabled(&self) -> bool {
        self.port.no_drop
    }

    /// The configuration the context was made with.
    pub closed spec fn spec_config(&self) -> Config {
        self.config
    }

    /// The reference to this context's port that proxies are given.
    pub closed spec fn weak_port(&self) -> P {
        self.port.registry.port()
    }

    /// Whether the context makes and serves calls.
    pub open spec fn is_open(&self) -> bool {
        self.state() is Running
    }

    /// How many parties have arrived at the firm-close barrier: this side, if
    /// it has asked for a firm close, and the other side, if it has called.
    pub open spec fn firm_close_arrivals(&self) -> nat {
        (if self.firm_close_called() {
            1nat
        } else {
            0nat
        }) + (if self.meta_service().was_called() {
            1nat
        } else {
            0nat
        })
    }

    /// The parts are well formed and agree with the state: a running context
    /// receives, has a live client and takes requests; any other has drained
    /// its receiver, switched deletion off, emptied its registry and stopped
    /// taking requests, and is closed exactly when no call is still served.
    pub open spec fn wf(&self) -> bool {
        &&& self.registry().wf()
        &&& self.server().wf()
        &&& self.meta_service().wf()
        &&& self.meta_service().barrier().parties() == 2
        &&& self.meta_service().barrier().arrived() == self.firm_close_arrivals()
        &&& self.client() matches Some(client) ==> client.wf()
        &&& self.multiplexer().is_drained() == !(self.state() is Running)
        &&& self.state() is Running ==> {
            &&& self.client() matches Some(client) && !client.is_terminated()
            &&& self.server().is_receiving()
        }
        &&& !(self.state() is Running) ==> {
            &&& self.client() is None
            &&& !self.server().is_receiving()
            &&& self.garbage_collection_disabled()
            &&& self.registry().objects() == Map::<ServiceObjectId, Arc<D>>::empty()
            &&& (self.state() is Closed <==> self.server().active_calls() == 0)
        }
    }

    /// Whether the registry of `self` holds what that of `other` holds.
    pub open spec fn same_registry(&self, other: Self) -> bool {
        &&& self.registry().objects() == other.registry().objects()
        &&& self.registry().free_ids() == other.registry().free_ids()
        &&& self.registry().port() == other.registry().port()
    }

    /// Whether the server of `self` is in the state of that of `other`.
    pub open spec fn same_server(&self, other: Self) -> bool {
        &&& self.server().active_calls() == other.server().active_calls()
        &&& self.server().is_receiving() == other.server().is_receiving()
    }

    /// Whether `self` differs from `other` in its registry at most.
    pub open spec fn same_but_registry(&self, other: Self) -> bool {
        &&& self.state() == other.state()
        &&& self.client() == other.client()
        &&& self.same_server(other)
        &&& self.meta_service() == other.meta_service()
        &&& self.firm_close_called() == other.firm_close_called()
        &&& self.garbage_collection_disabled() == other.garbage_collection_disabled()
        &&& self.spec_config() == other.spec_config()
        &&& self.weak_port() == other.weak_port()
        &&& self.registry().port() == other.registry().port()
    }

    /// Whether `self` differs from `other` in its client at most.
    pub open spec fn same_but_client(&self, other: Self) -> bool {
        &&& self.state() == other.state()
        &&& self.registry() == other.registry()
        &&& self.server() == other.server()
        &&& self.meta_service() == other.meta_service()
        &&& self.firm_close_called() == other.firm_close_called()
        &&& self.garbage_collection_disabled() == other.garbage_collection_disabled()
        &&& self.spec_config() == other.spec_config()
        &&& self.weak_port() == other.weak_port()
    }

    /// A context that exports nothing but `null_service`, a service without
    /// methods, and imports nothing.
    pub fn new(config: Config, meta_service: Skeleton<D>, null_service: Skeleton<D>, port: P) -> (ctx:
        Self)
        requires
            config.call_slots as u32 <= SLOT_CALL_OR_RETURN_INDICATOR,
        ensures
            ctx.is_fresh(config, meta_service, null_service, port),
    {
        let (ctx, _null_to_import): (Self, ServiceToImport<MetaServiceImpl, P>) =
            Self::with_initial_service(
            config,
            ServiceToExport::<MetaServiceImpl, D>::from_skeleton(null_service),
            meta_service,
            port,
        );
        ctx
    }

    /// A context that exports `initial_service` and imports nothing.
    pub fn with_initial_service_export<A: ?Sized + Service>(
        config: Config,
        initial_service: ServiceToExport<A, D>,
        meta_service: Skeleton<D>,
        port: P,
    ) -> (ctx: Self)
        requires
            config.call_slots as u32 <= SLOT_CALL_OR_RETURN_INDICATOR,
            initial_service.entry() is ReadyToExport,
        ensures
            ctx.is_fresh(config, meta_service, initial_service.entry()->ReadyToExport_0, port),
    {
        let (ctx, _null_to_import): (Self, ServiceToImport<MetaServiceImpl, P>) =
            Self::with_initial_service(config, initial_service, meta_service, port);
        ctx
    }

    /// A context that exports nothing but `null_service` and imports the
    /// other side's initial service.
    pub fn with_initial_service_import<B: ?Sized + Service>(
        config: Config,
        meta_service: Skeleton<D>,
        null_service: Skeleton<D>,
        port: P,
    ) -> (result: (Self, ServiceToImport<B, P>))
        requires
            config.call_slots as u32 <= SLOT_CALL_OR_RETURN_INDICATOR,
        ensures
            result.0.is_fresh(config, meta_service, null_service, port),
            result.1.handle() == HandleToExchange(INITIAL_SERVICE_OBJECT_ID),
            result.1.port() matches Some(clone) && cloned(port, clone),
    {
        Self::with_initial_service(
            config,
            ServiceToExport::<MetaServiceImpl, D>::from_skeleton(null_service),
            meta_service,
            port,
        )
    }

    /// What every constructor returns: a running context whose registry holds
    /// the meta service and the initial service under their reserved
    /// identifiers, with every call slot free, no call served, and no party
    /// at the firm-close barrier.
    pub open spec fn is_fresh(
        &self,
        config: Config,
        meta_service: Skeleton<D>,
        initial_service: Skeleton<D>,
        port: P,
    ) -> bool {
        &&& self.wf()
        &&& self.state() is Running
        &&& self.spec_config() == config
        &&& self.weak_port() == port
        &&& self.registry().port() == port
        &&& self.registry().objects() == Map::<ServiceObjectId, Arc<D>>::empty().insert(
            META_SERVICE_OBJECT_ID,
            meta_service.raw,
        ).insert(INITIAL_SERVICE_OBJECT_ID, initial_service.raw)
        &&& self.registry().free_ids() == initial_free_ids(config.maximum_services_num as u32)
        &&& self.client() matches Some(client) && client.slot_count() == config.call_slots as u32
            && client.free_slots() == crate::port::client::initial_slots(config.call_slots as u32)
        &&& self.server().active_calls() == 0
        &&& !self.firm_close_called()
        &&& !self.meta_service().was_called()
        &&& !self.garbage_collection_disabled()
    }

    /// A context that exports `initial_service` and imports the other side's
    /// initial service. The export is registered under the identifier reserved
    /// for initial services, and the import names that same identifier on the
    /// other side.
    pub fn with_initial_service<A: ?Sized + Service, B: ?Sized + Service>(
        config: Config,
        initial_service: ServiceToExport<A, D>,
        meta_service: Skeleton<D>,
        port: P,
    ) -> (result: (Self, ServiceToImport<B, P>))
        requires
            config.call_slots as u32 <= SLOT_CALL_OR_RETURN_INDICATOR,
            initial_service.entry() is ReadyToExport,
        ensures
            result.0.is_fresh(config, meta_service, initial_service.entry()->ReadyToExport_0, port),
            result.1.handle() == HandleToExchange(INITIAL_SERVICE_OBJECT_ID),
            result.1.port() matches Some(clone) && cloned(port, clone),
    {
        let firm_close_barrier = Barrier::new(2);

        let port_weak: WeakPort<P> = Some(port.clone());
        let client = Client::new(config.clone());
        let basic_port = BasicPort::new(
            config.clone(),
            client,
            meta_service,
            initial_service.get_raw_export(),
            port,
        );
        let server = Server::new();

        let initial_handle = HandleToExchange(INITIAL_SERVICE_OBJECT_ID);

        let ctx = Context {
            config,
            state: ContextState::Running,
            multiplexer: Multiplexer::multiplex(),
            port: basic_port,
            server,
            meta_service: MetaServiceImpl::new(firm_close_barrier),
            firm_close_called: false,
        };
        let initial_service = ServiceToImport::from_raw_import(initial_handle, port_weak);
        (ctx, initial_service)
    }

    /// The state the context is in.
    pub fn current_state(&self) -> (state: ContextState)
        ensures
            state == self.state(),
    {
        self.state
    }

    /// The configuration the context was made with.
    pub fn config(&self) -> (config: &Config)
        ensures
            *config == self.spec_config(),
    {
        &self.config
    }

    /// Whether a worker is still serving a call.
    pub fn is_serving(&self) -> (serving: bool)
        ensures
            serving == (self.server().active_calls() > 0),
    {
        self.server.has_active_calls()
    }

    /// A reference to this context's port, as proxies hold it.
    pub fn get_port(&self) -> (port: WeakPort<P>)
        ensures
            port matches Some(clone) && cloned(self.weak_port(), clone),
    {
        Some(self.port.registry.current_port().clone())
    }

    /// How many objects are registered.
    pub fn registry_len(&self) -> (n: usize)
        ensures
            n == self.registry().objects().len(),
    {
        self.port.registry.len()
    }

    /// Whether an object is registered under `id`.
    pub fn is_registered(&self, id: ServiceObjectId) -> (found: bool)
        ensures
            found == self.registry().objects().contains_key(id),
    {
        self.port.registry.contains(id)
    }

    /// Whether an object can be registered now: the context runs and an
    /// identifier is free.
    pub fn can_register(&self) -> (ok: bool)
        ensures
            ok == (self.is_open() && self.registry().free_ids().len() > 0),
    {
        match self.state {
            ContextState::Running => !self.port.registry.is_exhausted(),
            _ => false,
        }
    }

    /// Registers an object for export and returns the handle to pass to the
    /// other side.
    pub fn register_service(&mut self, service_object: Arc<D>) -> (handle: HandleToExchange)
        requires
            old(self).wf(),
            old(self).is_open(),
            old(self).registry().free_ids().len() > 0,
        ensures
            final(self).wf(),
            handle.0 == old(self).registry().free_ids()[0],
            !old(self).registry().objects().contains_key(handle.0),
            final(self).registry().objects() == old(self).registry().objects().insert(
                handle.0,
                service_object,
            ),
            final(self).registry().free_ids() == old(self).registry().free_ids().drop_first(),
            final(self).same_but_registry(*old(self)),
    {
        self.port.register_service(service_object)
    }

    /// Drops every object that this context exports. A proxy of such an
    /// object, dropped later by the other side, asks for a deletion that
    /// cannot be served.
    pub fn clear_service_registry(&mut self)
        requires
            old(self).wf(),
        ensures
            final(self).wf(),
            final(self).registry().objects() == Map::<ServiceObjectId, Arc<D>>::empty(),
            final(self).registry().free_ids() == old(self).registry().free_ids(),
            final(self).same_but_registry(*old(self)),
    {
        self.port.clear_registry();
    }

    /// From now on, proxies imported through this context send nothing when
    /// they are dropped.
    pub fn disable_garbage_collection(&mut self)
        requires
            old(self).wf(),
        ensures
            final(self).wf(),
            final(self).garbage_collection_disabled(),
            final(self).state() == old(self).state(),
            final(self).registry() == old(self).registry(),
            final(self).client() == old(self).client(),
            final(self).server() == old(self).server(),
            final(self).meta_service() == old(self).meta_service(),
            final(self).firm_close_called() == old(self).firm_close_called(),
    {
        self.port.set_no_drop();
    }

    /// The request to send when a proxy imported through this context is
    /// dropped: none for a null proxy or while garbage collection is
    /// disabled, else the delete request for the proxy's object.
    pub fn delete_request(&self, id: ServiceObjectId) -> (request: Option<Packet>)
        ensures
            self.garbage_collection_disabled() || id == crate::forwarder::NULL_ID ==> request is None,
            !self.garbage_collection_disabled() && id != crate::forwarder::NULL_ID ==> (
            request matches Some(packet) && packet.wire() == delete_request_bytes(id)),
    {
        if id == crate::forwarder::NULL_ID {
            return None;
        }
        self.port.delete_request(id)
    }

    /// Starts a call: see `Client::begin_call`. A context that is not running
    /// fails the call with `Termination`.
    pub fn begin_call(&mut self, packet: PacketView) -> (result: Result<Packet, TransportError>)
        requires
            old(self).wf(),
            has_header(packet.wire()),
        ensures
            final(self).wf(),
            final(self).same_but_client(*old(self)),
            !old(self).is_open() ==> result == Err::<Packet, TransportError>(
                TransportError::Termination,
            ) && final(self).client() == old(self).client(),
            old(self).is_open() ==> {
                let before = old(self).client()->0;
                let after = final(self).client()->0;
                &&& final(self).client() is Some
                &&& after.slot_count() == before.slot_count()
                &&& forall|s: u32| after.waiting_response(s) == before.waiting_response(s)
                &&& before.free_slots().len() == 0 ==> {
                    &&& result == Err::<Packet, TransportError>(TransportError::TimeOut)
                    &&& after.free_slots() == before.free_slots()
                    &&& forall|s: u32| after.is_in_flight(s) == before.is_in_flight(s)
                }
                &&& before.free_slots().len() > 0 ==> {
                    let slot = before.free_slots()[0]@;
                    &&& result is Ok
                    &&& result->Ok_0.wire() == crate::port::client::request_bytes(packet.wire(), slot)
                    &&& slot < before.slot_count()
                    &&& !before.is_in_flight(slot)
                    &&& after.waiting_response(slot) is None
                    &&& after.free_slots() == before.free_slots().drop_first()
                    &&& forall|s: u32| after.is_in_flight(s) == (s == slot || before.is_in_flight(s))
                }
            },
    {
        match &mut self.port.client {
            None => Err(TransportError::Termination),
            Some(client) => client.begin_call(packet),
        }
    }

    /// Ends the wait of the call that holds `slot`: see
    /// `Client::take_response`. A context that is not running fails the call
    /// with `Termination`.
    pub fn take_response(&mut self, slot: SlotId) -> (result: Option<Result<Packet, TransportError>>)
        requires
            old(self).wf(),
            old(self).is_open() ==> old(self).client()->0.is_in_flight(slot@),
        ensures
            final(self).wf(),
            final(self).same_but_client(*old(self)),
            !old(self).is_open() ==> result == Some(
                Err::<Packet, TransportError>(TransportError::Termination),
            ) && final(self).client() == old(self).client(),
            old(self).is_open() ==> {
                let before = old(self).client()->0;
                let after = final(self).client()->0;
                &&& final(self).client() is Some
                &&& after.slot_count() == before.slot_count()
                &&& forall|s: u32| s != slot@ ==> after.waiting_response(s) == before.waiting_response(s)
                &&& forall|s: u32| s != slot@ ==> after.is_in_flight(s) == before.is_in_flight(s)
                &&& before.waiting_response(slot@) is None ==> {
                    &&& result is None
                    &&& after.free_slots() == before.free_slots()
                    &&& after.is_in_flight(slot@)
                    &&& after.waiting_response(slot@) is None
                }
                &&& before.waiting_response(slot@) is Some ==> {
                    &&& result matches Some(Ok(packet))
                    &&& Some(packet.wire()) == before.waiting_response(slot@)
                    &&& after.free_slots() == before.free_slots().push(slot)
                    &&& !after.is_in_flight(slot@)
                    &&& after.waiting_response(slot@) is None
                }
            },
    {
        match &mut self.port.client {
            None => Some(Err(TransportError::Termination)),
            Some(client) => client.take_response(slot),
        }
    }

    /// Gives up the call that holds `slot`: see `Client::abandon_call`. A
    /// context that is not running has no calls to give up.
    pub fn abandon_call(&mut self, slot: SlotId)
        requires
            old(self).wf(),
            old(self).is_open() ==> old(self).client()->0.is_in_flight(slot@),
        ensures
            final(self).wf(),
            final(self).same_but_client(*old(self)),
            !old(self).is_open() ==> final(self).client() == old(self).client(),
            old(self).is_open() ==> {
                let before = old(self).client()->0;
                let after = final(self).client()->0;
                &&& final(self).client() is Some
                &&& after.slot_count() == before.slot_count()
                &&& after.free_slots() == before.free_slots().push(slot)
                &&& !after.is_in_flight(slot@)
                &&& after.waiting_response(slot@) is None
                &&& forall|s: u32| s != slot@ ==> after.waiting_response(s) == before.waiting_response(s)
                &&& forall|s: u32| s != slot@ ==> after.is_in_flight(s) == before.is_in_flight(s)
            },
    {
        match &mut self.port.client {
            None => {},
            Some(client) => client.abandon_call(slot),
        }
    }

    /// Whether the context can take in this outcome of a `recv`: a packet
    /// must have a header; a request must name a registered object, and one
    /// more served call must be countable; a response must name a slot that a
    /// call holds, with no earlier response waiting there.
    pub open spec fn accepts(&self, received: Result<Vec<u8>, TransportError>) -> bool {
        received matches Ok(message) ==> {
            &&& has_header(message@)
            &&& is_request(message@) ==> {
                &&& self.registry().objects().contains_key(object_of(message@))
                &&& self.server().active_calls() < i32::MAX
            }
            &&& is_response(message@) ==> {
                &&& self.client() matches Some(client)
                &&& client.is_in_flight(slot_of(message@))
                &&& client.waiting_response(slot_of(message@)) is None
            }
        }
    }

    /// Whether the context can take in this outcome of a `recv`.
    pub fn can_receive(&self, received: &Result<Vec<u8>, TransportError>) -> (ok: bool)
        requires
            self.wf(),
            self.is_open(),
        ensures
            ok == self.accepts(*received),
    {
        match received {
            Err(_) => true,
            Ok(message) => {
                if message.len() < 12 {
                    return false;
                }
                let view = PacketView::new(message.as_slice());
                match view.slot().get_type() {
                    SlotType::Request => self.port.registry.contains(view.object_id())
                        && self.server.has_room(),
                    SlotType::Response => match &self.port.client {
                        Some(client) => client.can_receive(&view),
                        None => false,
                    },
                }
            },
        }
    }

    /// Takes in one outcome of a `recv` on the transport.
    ///
    /// An error ends the running state: see `shutdown`. A response waits at
    /// the slot it names until its call picks it up. A delete request is
    /// served at once, and its response is handed back. Any other request
    /// counts as served from now on, and is handed back together with the
    /// dispatcher of its target; what the dispatcher returns goes to `respond`.
    pub fn receive(&mut self, received: Result<Vec<u8>, TransportError>) -> (step: ContextStep<D>)
        requires
            old(self).wf(),
            old(self).is_open(),
            old(self).accepts(received),
        ensures
            final(self).wf(),
            final(self).meta_service() == old(self).meta_service(),
            final(self).firm_close_called() == old(self).firm_close_called(),
            final(self).registry().port() == old(self).registry().port(),
            final(self).spec_config() == old(self).spec_config(),
            received matches Err(err) ==> {
                &&& step == ContextStep::<D>::Closed(err)
                &&& final(self).is_shut_down_from(*old(self))
            },
            received matches Ok(message) ==> (is_response(message@) ==> {
                let before = old(self).client()->0;
                let after = final(self).client()->0;
                &&& step matches ContextStep::Response(slot)
                &&& slot@ == slot_of(message@)
                &&& final(self).same_but_client(*old(self))
                &&& final(self).client() is Some
                &&& after.slot_count() == before.slot_count()
                &&& after.free_slots() == before.free_slots()
                &&& forall|s: u32| after.is_in_flight(s) == before.is_in_flight(s)
                &&& after.waiting_response(slot@) == Some(message@)
                &&& forall|s: u32| s != slot@ ==> after.waiting_response(s) == before.waiting_response(s)
            }),
            received matches Ok(message) ==> (is_request(message@) && method_of(message@)
                == DELETE_REQUEST ==> {
                &&& step matches ContextStep::Reply(response)
                &&& response.wire() == response_bytes(message@, Seq::<u8>::empty())
                &&& final(self).same_but_registry(*old(self))
                &&& final(self).registry().objects() == old(self).registry().objects().remove(
                    object_of(message@),
                )
                &&& final(self).registry().free_ids() == old(self).registry().free_ids().push(
                    object_of(message@),
                )
            }),
            received matches Ok(message) ==> (is_request(message@) && method_of(message@)
                != DELETE_REQUEST ==> {
                &&& step matches ContextStep::Dispatch { request, handler, method }
                &&& request.wire() == message@
                &&& handler == old(self).registry().objects()[object_of(message@)]
                &&& method == method_of(message@)
                &&& final(self).state() == old(self).state()
                &&& final(self).same_registry(*old(self))
                &&& final(self).client() == old(self).client()
                &&& final(self).garbage_collection_disabled() == old(self).garbage_collection_disabled()
                &&& final(self).server().active_calls() == old(self).server().active_calls() + 1
            }),
    {
        match self.multiplexer.receive::<PacketForward>(received) {
            Multiplexed::Closed(err) => {
                self.drain();
                ContextStep::Closed(err)
            },
            Multiplexed::Response(message) => ContextStep::Response(self.receive_response(message)),
            Multiplexed::Request(message) => self.receive_request(message),
        }
    }

    fn receive_response(&mut self, message: Vec<u8>) -> (slot: SlotId)
        requires
            old(self).wf(),
            old(self).is_open(),
            is_response(message@),
            old(self).client()->0.is_in_flight(slot_of(message@)),
            old(self).client()->0.waiting_response(slot_of(message@)) is None,
        ensures
            final(self).wf(),
            slot@ == slot_of(message@),
            final(self).same_but_client(*old(self)),
            final(self).client() is Some,
            final(self).client()->0.slot_count() == old(self).client()->0.slot_count(),
            final(self).client()->0.free_slots() == old(self).client()->0.free_slots(),
            forall|s: u32|
                final(self).client()->0.is_in_flight(s) == old(self).client()->0.is_in_flight(s),
            final(self).client()->0.waiting_response(slot@) == Some(message@),
            forall|s: u32|
                s != slot@ ==> final(self).client()->0.waiting_response(s) == old(
                    self,
                ).client()->0.waiting_response(s),
    {
        let packet = Packet::new_from_buffer(message);
        match &mut self.port.client {
            Some(client) => client.receive(packet),
            None => vstd::pervasive::unreached(),
        }
    }

    fn receive_request(&mut self, message: Vec<u8>) -> (step: ContextStep<D>)
        requires
            old(self).wf(),
            old(self).is_open(),
            is_request(message@),
            old(self).registry().objects().contains_key(object_of(message@)),
            old(self).server().active_calls() < i32::MAX,
        ensures
            final(self).wf(),
            final(self).state() == old(self).state(),
            final(self).client() == old(self).client(),
            final(self).meta_service() == old(self).meta_service(),
            final(self).firm_close_called() == old(self).firm_close_called(),
            final(self).garbage_collection_disabled() == old(self).garbage_collection_disabled(),
            final(self).spec_config() == old(self).spec_config(),
            final(self).registry().port() == old(self).registry().port(),
            method_of(message@) == DELETE_REQUEST ==> {
                &&& step matches ContextStep::Reply(response)
                &&& response.wire() == response_bytes(message@, Seq::<u8>::empty())
                &&& final(self).same_server(*old(self))
                &&& final(self).registry().objects() == old(self).registry().objects().remove(
                    object_of(message@),
                )
                &&& final(self).registry().free_ids() == old(self).registry().free_ids().push(
                    object_of(message@),
                )
            },
            method_of(message@) != DELETE_REQUEST ==> {
                &&& step matches ContextStep::Dispatch { request, handler, method }
                &&& request.wire() == message@
                &&& handler == old(self).registry().objects()[object_of(message@)]
                &&& method == method_of(message@)
                &&& final(self).same_registry(*old(self))
                &&& final(self).server().active_calls() == old(self).server().active_calls() + 1
            },
    {
        let request = match self.server.receive(Ok(message)) {
            ServerStep::Dispatch(packet) => packet,
            ServerStep::Drain => vstd::pervasive::unreached(),
        };
        let decision = self.port.registry.forward(&request.view());
        match decision {
            Forwarding::Deleted => {
                let nothing: Vec<u8> = Vec::new();
                let response = build_response(&request, nothing.as_slice());
                assert(nothing@ =~= Seq::<u8>::empty());
                self.server.call_finished();
                ContextStep::Reply(response)
            },
            Forwarding::Call { handler, method } => ContextStep::Dispatch { request, handler, method },
        }
    }

    /// Takes in one outcome of a `recv` and serves it to the end, in place:
    /// what `receive` hands out for dispatch is dispatched at once, with this
    /// context's port as the current port while the dispatcher runs, and
    /// answered. Returns the response to send, if there is one.
    pub fn serve(&mut self, stack: &mut PortStack<WeakPort<P>>, received: Result<Vec<u8>, TransportError>) -> (reply:
        Option<Packet>)
        requires
            old(self).wf(),
            old(self).is_open(),
            old(self).accepts(received),
            old(stack)@.len() < PORT_STACK_LIMIT,
        ensures
            final(self).wf(),
            final(stack)@ == old(stack)@,
            final(self).meta_service() == old(self).meta_service(),
            final(self).firm_close_called() == old(self).firm_close_called(),
            received matches Err(err) ==> reply is None && final(self).is_shut_down_from(*old(self)),
            received matches Ok(message) ==> (is_response(message@) ==> {
                &&& reply is None
                &&& final(self).same_but_client(*old(self))
                &&& final(self).client() matches Some(client) && client.waiting_response(
                    slot_of(message@),
                ) == Some(message@)
            }),
            received matches Ok(message) ==> (is_request(message@) ==> {
                &&& reply is Some
                &&& final(self).same_but_registry(*old(self))
                &&& method_of(message@) == DELETE_REQUEST ==> {
                    &&& reply->0.wire() == response_bytes(message@, Seq::<u8>::empty())
                    &&& final(self).registry().objects() == old(self).registry().objects().remove(
                        object_of(message@),
                    )
                    &&& final(self).registry().free_ids() == old(self).registry().free_ids().push(
                        object_of(message@),
                    )
                }
                &&& method_of(message@) != DELETE_REQUEST ==> {
                    &&& final(self).same_registry(*old(self))
                    &&& exists|payload: &[u8], output: Vec<u8>|
                        payload@ == payload_of(message@) && D::dispatch_and_call.ensures(
                            (&*old(self).registry().objects()[object_of(message@)], method_of(message@), payload),
                            output,
                        ) && reply->0.wire() == response_bytes(message@, output@)
                }
            }),
    {
        match self.receive(received) {
            ContextStep::Response(_) => None,
            ContextStep::Closed(_) => None,
            ContextStep::Reply(response) => Some(response),
            ContextStep::Dispatch { request, handler, method } => {
                set_port(stack, self.get_port());
                let output = handler.dispatch_and_call(method, request.data());
                remove_port(stack);
                assert(stack@ =~= old(stack)@);
                Some(self.respond(&request, output.as_slice()))
            },
        }
    }

    /// The response to `request` with `payload`, the bytes its dispatcher
    /// returned, as payload. The call no longer counts as served; a draining
    /// context whose last served call this was is closed.
    pub fn respond(&mut self, request: &Packet, payload: &[u8]) -> (response: Packet)
        requires
            old(self).wf(),
            is_request(request.wire()),
            old(self).server().active_calls() > 0,
        ensures
            final(self).wf(),
            response.wire() == response_bytes(request.wire(), payload@),
            final(self).server().active_calls() == old(self).server().active_calls() - 1,
            final(self).registry() == old(self).registry(),
            final(self).client() == old(self).client(),
            final(self).meta_service() == old(self).meta_service(),
            final(self).firm_close_called() == old(self).firm_close_called(),
            final(self).garbage_collection_disabled() == old(self).garbage_collection_disabled(),
            final(self).spec_config() == old(self).spec_config(),
            final(self).server().is_receiving() == old(self).server().is_receiving(),
            old(self).is_open() ==> final(self).is_open(),
            !old(self).is_open() ==> final(self).state() == if final(self).server().active_calls()
                == 0 {
                ContextState::Closed
            } else {
                ContextState::Draining
            },
    {
        let response = build_response(request, payload);
        self.server.call_finished();
        match self.state {
            ContextState::Running => {},
            _ => {
                if !self.server.has_active_calls() {
                    self.state = ContextState::Closed;
                }
            },
        }
        response
    }

    /// What `shutdown` makes of `before`: deletion is switched off, the
    /// registry is empty, the client is gone, no request is taken any more,
    /// and the context is closed if no call is still served, draining if one
    /// is.
    pub open spec fn is_shut_down_from(&self, before: Self) -> bool {
        &&& self.wf()
        &&& !self.is_open()
        &&& self.state() == if before.server().active_calls() == 0 {
            ContextState::Closed
        } else {
            ContextState::Draining
        }
        &&& self.server().active_calls() == before.server().active_calls()
        &&& self.registry().free_ids() == before.registry().free_ids()
        &&& self.registry().port() == before.registry().port()
        &&& self.meta_service() == before.meta_service()
        &&& self.firm_close_called() == before.firm_close_called()
        &&& self.spec_config() == before.spec_config()
    }

    /// Ends the running state, as dropping the context does. A context that
    /// is not running stays as it is.
    pub fn shutdown(&mut self)
        requires
            old(self).wf(),
        ensures
            old(self).is_open() ==> final(self).is_shut_down_from(*old(self)),
            !old(self).is_open() ==> *final(self) == *old(self),
    {
        match self.state {
            ContextState::Running => {
                self.multiplexer.shutdown();
                self.drain();
            },
            _ => {},
        }
    }

    /// Leaves the running state once the receiver has stopped: switches
    /// deletion off, empties the registry, fails the calls that wait, and
    /// takes no more requests.
    fn drain(&mut self)
        requires
            old(self).state() is Running,
            old(self).multiplexer().is_drained(),
            old(self).registry().wf(),
            old(self).server().wf(),
            old(self).meta_service().wf(),
            old(self).meta_service().barrier().parties() == 2,
            old(self).meta_service().barrier().arrived() == old(self).firm_close_arrivals(),
            old(self).client() matches Some(client) && client.wf(),
        ensures
            final(self).wf(),
            !final(self).is_open(),
            final(self).state() == if old(self).server().active_calls() == 0 {
                ContextState::Closed
            } else {
                ContextState::Draining
            },
            final(self).server().active_calls() == old(self).server().active_calls(),
            final(self).registry().free_ids() == old(self).registry().free_ids(),
            final(self).registry().port() == old(self).registry().port(),
            final(self).meta_service() == old(self).meta_service(),
            final(self).firm_close_called() == old(self).firm_close_called(),
            final(self).spec_config() == old(self).spec_config(),
    {
        self.port.set_no_drop();
        self.port.clear_registry();
        let _ = self.port.shutdown();
        self.server.shutdown();
        if self.server.has_active_calls() {
            self.state = ContextState::Draining;
        } else {
            self.state = ContextState::Closed;
        }
    }

    /// The other side's call of the meta service: its arrival at this side's
    /// firm-close barrier. A second call changes nothing.
    pub fn meta_firm_close(&mut self)
        requires
            old(self).wf(),
        ensures
            final(self).wf(),
            final(self).meta_service().was_called(),
            final(self).state() == old(self).state(),
            final(self).registry() == old(self).registry(),
            final(self).client() == old(self).client(),
            final(self).server() == old(self).server(),
            final(self).firm_close_called() == old(self).firm_close_called(),
            final(self).garbage_collection_disabled() == old(self).garbage_collection_disabled(),
    {
        self.meta_service.firm_close();
    }

    /// Closes the context once both sides have asked for it. This side's
    /// request is recorded. If the other side has called already, the context
    /// is shut down and the close succeeds; if not, the context is handed
    /// back, still running, for another try after the other side's call has
    /// come in. The timeout is not looked at.
    pub fn firm_close(self, _timeout: Option<std::time::Duration>) -> (result: Result<(), Self>)
        requires
            self.wf(),
            self.is_open(),
        ensures
            result is Ok <==> self.meta_service().was_called(),
            result matches Err(ctx) ==> {
                &&& ctx.wf()
                &&& ctx.is_open()
                &&& ctx.firm_close_called()
                &&& ctx.registry() == self.registry()
                &&& ctx.client() == self.client()
                &&& ctx.server() == self.server()
                &&& ctx.garbage_collection_disabled() == self.garbage_collection_disabled()
                &&& !ctx.meta_service().was_called()
            },
    {
        let mut ctx = self;
        if !ctx.firm_close_called {
            let _ = ctx.meta_service.barrier.wait();
            ctx.firm_close_called = true;
        }
        if ctx.meta_service.barrier.has_opened() {
            ctx.shutdown();
            Ok(())
        } else {
            Err(ctx)
        }
    }
}

/// Makes one call from `caller` to `callee`, two ends of one connection, and
/// serves it in place: the request takes a call slot of the caller, is
/// dispatched by the callee with the callee's port as the current port, and
/// the response comes back through the caller's slot, which is free again
/// afterwards.
///
/// The call observes its own response: what comes back is what the
/// dispatcher of the target returned for the payload of `packet`, or nothing
/// for a delete request, which removes the target. With every slot of the
/// caller held, the call fails with `TimeOut` and nothing is sent.
pub fn call_in_place<D: Dispatch, P: Clone, E: Dispatch, Q: Clone>(
    caller: &mut Context<E, Q>,
    callee: &mut Context<D, P>,
    stack: &mut PortStack<WeakPort<P>>,
    packet: PacketView,
) -> (result: Result<Vec<u8>, TransportError>)
    requires
        old(caller).wf(),
        old(caller).is_open(),
        old(callee).wf(),
        old(callee).is_open(),
        has_header(packet.wire()),
        old(callee).registry().objects().contains_key(object_of(packet.wire())),
        old(callee).server().active_calls() < i32::MAX,
        old(stack)@.len() < PORT_STACK_LIMIT,
    ensures
        final(caller).wf(),
        final(callee).wf(),
        final(caller).is_open(),
        final(callee).is_open(),
        final(stack)@ == old(stack)@,
        final(caller).same_but_client(*old(caller)),
        final(callee).same_but_registry(*old(callee)),
        final(caller).client() is Some,
        forall|s: u32|
            final(caller).client()->0.is_in_flight(s) == old(caller).client()->0.is_in_flight(s),
        forall|s: u32|
            final(caller).client()->0.waiting_response(s) == old(caller).client()->0.waiting_response(s),
        old(caller).client()->0.free_slots().len() == 0 ==> {
            &&& result == Err::<Vec<u8>, TransportError>(TransportError::TimeOut)
            &&& final(caller).client()->0.free_slots() == old(caller).client()->0.free_slots()
            &&& final(callee).same_registry(*old(callee))
        },
        old(caller).client()->0.free_slots().len() > 0 ==> {
            &&& final(caller).client()->0.free_slots() == old(caller).client()->0.free_slots().drop_first().push(
                old(caller).client()->0.free_slots()[0],
            )
            &&& method_of(packet.wire()) == DELETE_REQUEST ==> {
                &&& result matches Ok(data) && data@.len() == 0
                &&& final(callee).registry().objects() == old(callee).registry().objects().remove(
                    object_of(packet.wire()),
                )
                &&& final(callee).registry().free_ids() == old(callee).registry().free_ids().push(
                    object_of(packet.wire()),
                )
            }
            &&& method_of(packet.wire()) != DELETE_REQUEST ==> {
                &&& final(callee).same_registry(*old(callee))
                &&& exists|payload: &[u8], output: Vec<u8>|
                    payload@ == payload_of(packet.wire()) && D::dispatch_and_call.ensures(
                        (
                            &*old(callee).registry().objects()[object_of(packet.wire())],
                            method_of(packet.wire()),
                            payload,
                        ),
                        output,
                    ) && (result matches Ok(data) && data@ == output@)
            }
        },
{
    let request = match caller.begin_call(packet) {
        Ok(request) => request,
        Err(err) => {
            return Err(err);
        },
    };
    let ghost slot = old(caller).client()->0.free_slots()[0]@;
    proof {
        old(caller).client()->0.lemma_free_or_in_flight(slot);
        lemma_request_carries_slot(packet.wire(), slot);
    }
    let slot_id = SlotId::new(request.view().slot().as_raw() - SLOT_CALL_OR_RETURN_INDICATOR);
    let ghost request_bytes = request.wire();

    let reply = match callee.serve(stack, Ok(request.into_vec())) {
        Some(reply) => reply,
        None => vstd::pervasive::unreached(),
    };
    proof {
        if method_of(packet.wire()) == DELETE_REQUEST {
            lemma_response_answers_request(request_bytes, Seq::<u8>::empty());
        } else {
            let (payload, output) = choose|payload: &[u8], output: Vec<u8>|
                payload@ == payload_of(request_bytes) && D::dispatch_and_call.ensures(
                    (
                        &*old(callee).registry().objects()[object_of(request_bytes)],
                        method_of(request_bytes),
                        payload,
                    ),
                    output,
                ) && reply.wire() == response_bytes(request_bytes, output@);
            lemma_response_answers_request(request_bytes, output@);
        }
    }

    let _ = caller.receive(Ok(reply.into_vec()));
    let response = match caller.take_response(slot_id) {
        Some(Ok(response)) => response,
        _ => vstd::pervasive::unreached(),
    };
    Handle::<Q>::response_data(Ok(response))
}

} // verus!
