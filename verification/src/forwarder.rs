//! The registry of exported objects.
//!
//! The registry maps object identifiers to dispatchers and keeps a pool of
//! identifiers that are free to hand out. Registering an object takes the
//! oldest free identifier; deleting an object puts its identifier at the back
//! of the pool.

use crate::context::Config;
use crate::packet::has_header;
use crate::packet::method_of;
use crate::packet::object_of;
use crate::packet::payload_of;
use crate::packet::PacketView;
use crate::service::export_import::clone_arc;
use crate::service::export_import::Skeleton;
use crate::service::serde_support::remove_port;
use crate::service::serde_support::set_port;
use crate::service::serde_support::PortStack;
use crate::service::serde_support::PORT_STACK_LIMIT;
use crate::service::Dispatch;
use crate::service::MethodId;
use std::collections::HashMap;
use std::collections::VecDeque;
use std::sync::Arc;
use vstd::prelude::*;

verus! {

broadcast use vstd::std_specs::hash::group_hash_axioms;

/// Identifier of an exported object, local to the side that exports it.
pub type ServiceObjectId = u32;

/// The method identifier that asks for the target object to be deleted.
pub const DELETE_REQUEST: MethodId = 4_294_967_295;

/// The identifier of the built-in object that coordinates shutdown.
pub const META_SERVICE_OBJECT_ID: ServiceObjectId = 0;

/// The identifier of the service that a connection end starts with.
pub const INITIAL_SERVICE_OBJECT_ID: ServiceObjectId = 1;

/// The identifier that stands for no object.
pub const NULL_ID: ServiceObjectId = 4_294_967_295;

/// The identifiers that a fresh registry can hand out, in the order in which it
/// will: every identifier below `limit` but the two reserved ones.
pub open spec fn initial_free_ids(limit: u32) -> Seq<ServiceObjectId> {
    Seq::new(
        if limit > 2 {
            (limit - 2) as nat
        } else {
            0
        },
        |i: int| (i + 2) as u32,
    )
}

/// What the registry decided about an incoming request.
pub enum Forwarding<D: Dispatch> {
    /// The request asked for its target to be deleted, and it was.
    Deleted,
    /// The request is a call of `method` on the object behind `handler`.
    Call { handler: Arc<D>, method: MethodId },
}

/// The registry of one connection end.
pub struct ServiceForwarder<D: Dispatch, P: Clone> {
    service_objects: HashMap<ServiceObjectId, Arc<D>>,
    available_ids: VecDeque<ServiceObjectId>,
    port: P,
}

impl<D: Dispatch, P: Clone> ServiceForwarder<D, P> {
    /// The registered objects by identifier.
    pub closed spec fn objects(&self) -> Map<ServiceObjectId, Arc<D>> {
        self.service_objects@
    }

    /// The identifiers that are free, next to be handed out first.
    pub closed spec fn free_ids(&self) -> Seq<ServiceObjectId> {
        self.available_ids@
    }

    /// The port that is current while a dispatcher runs.
    pub closed spec fn port(&self) -> P {
        self.port
    }

    /// No identifier is free twice, and no free identifier is registered.
    pub open spec fn wf(&self) -> bool {
        &&& self.objects().dom().finite()
        &&& self.free_ids().no_duplicates()
        &&& forall|i: int|
            0 <= i < self.free_ids().len() ==> !self.objects().contains_key(
                #[trigger] self.free_ids()[i],
            )
    }

    /// A registry that holds the meta service and the initial service under
    /// their reserved identifiers, and can hand out every other identifier
    /// below the configured maximum.
    pub fn new(config: Config, meta_service: Skeleton<D>, service_object: Skeleton<D>, port: P) -> (registry:
        Self)
        ensures
            registry.wf(),
            registry.objects() == Map::<ServiceObjectId, Arc<D>>::empty().insert(
                META_SERVICE_OBJECT_ID,
                meta_service.raw,
            ).insert(INITIAL_SERVICE_OBJECT_ID, service_object.raw),
            registry.free_ids() == initial_free_ids(config.maximum_services_num as u32),
            registry.port() == port,
    {
        let mut service_objects: HashMap<ServiceObjectId, Arc<D>> = HashMap::new();
        service_objects.insert(META_SERVICE_OBJECT_ID, meta_service.raw);
        service_objects.insert(INITIAL_SERVICE_OBJECT_ID, service_object.raw);
        let limit: u32 = #[verifier::truncate]
        (config.maximum_services_num as u32);
        let mut available_ids: VecDeque<ServiceObjectId> = VecDeque::new();
        let mut i: u32 = 0;
        while i < limit
            invariant
                i <= limit,
                available_ids@ == initial_free_ids(i),
            decreases limit - i,
        {
            if i != META_SERVICE_OBJECT_ID && i != INITIAL_SERVICE_OBJECT_ID {
                available_ids.push_back(i);
            }
            assert(available_ids@ =~= initial_free_ids((i + 1) as u32));
            i += 1;
        }
        Self { service_objects, available_ids, port }
    }

    /// The port that is current while a dispatcher runs.
    pub fn current_port(&self) -> (port: &P)
        ensures
            *port == self.port(),
    {
        &self.port
    }

    /// Whether no identifier is left to hand out.
    pub fn is_exhausted(&self) -> (exhausted: bool)
        ensures
            exhausted == (self.free_ids().len() == 0),
    {
        self.available_ids.len() == 0
    }

    /// Whether an object is registered under `id`.
    pub fn contains(&self, id: ServiceObjectId) -> (found: bool)
        ensures
            found == self.objects().contains_key(id),
    {
        self.service_objects.contains_key(&id)
    }

    /// How many objects are registered.
    pub fn len(&self) -> (n: usize)
        ensures
            n == self.objects().len(),
    {
        self.service_objects.len()
    }

    /// Registers an object under the oldest free identifier.
    pub fn register_service_object(&mut self, service_object: Arc<D>) -> (id: ServiceObjectId)
        requires
            old(self).wf(),
            old(self).free_ids().len() > 0,
        ensures
            final(self).wf(),
            id == old(self).free_ids()[0],
            !old(self).objects().contains_key(id),
            final(self).objects() == old(self).objects().insert(id, service_object),
            final(self).free_ids() == old(self).free_ids().drop_first(),
            final(self).port() == old(self).port(),
    {
        let popped = self.available_ids.pop_front();
        let id = popped.unwrap();
        proof {
            assert(old(self).free_ids()[0] == id);
            assert forall|i: int| 0 <= i < self.available_ids@.len() implies self.available_ids@[i]
                != id by {
                assert(self.available_ids@[i] == old(self).free_ids()[i + 1]);
            }
        }
        let _ = self.service_objects.insert(id, service_object);
        assert(self.available_ids@ =~= old(self).free_ids().drop_first());
        id
    }

    /// Decides what an incoming request asks for. A delete request removes its
    /// target and frees the identifier; any other request leaves the registry
    /// as it is and names the dispatcher to call.
    pub fn forward(&mut self, packet: &PacketView) -> (decision: Forwarding<D>)
        requires
            old(self).wf(),
            has_header(packet.wire()),
            old(self).objects().contains_key(object_of(packet.wire())),
        ensures
            final(self).wf(),
            final(self).port() == old(self).port(),
            method_of(packet.wire()) == DELETE_REQUEST ==> {
                &&& decision is Deleted
                &&& final(self).objects() == old(self).objects().remove(object_of(packet.wire()))
                &&& final(self).free_ids() == old(self).free_ids().push(object_of(packet.wire()))
            },
            method_of(packet.wire()) != DELETE_REQUEST ==> {
                &&& decision == (Forwarding::Call {
                    handler: old(self).objects()[object_of(packet.wire())],
                    method: method_of(packet.wire()),
                })
                &&& final(self).objects() == old(self).objects()
                &&& final(self).free_ids() == old(self).free_ids()
            },
    {
        let object_id = packet.object_id();
        let method = packet.method();

        if method == DELETE_REQUEST {
            self.delete(object_id);
            Forwarding::Deleted
        } else {
            let found = self.service_objects.get(&object_id);
            let handler = clone_arc(found.unwrap());
            Forwarding::Call { handler, method }
        }
    }

    /// Serves an incoming request. A delete request removes its target and
    /// returns no bytes. Any other request is handed to the target's
    /// dispatcher, with this registry's port as the current port while the
    /// dispatcher runs.
    pub fn forward_and_call(&mut self, stack: &mut PortStack<P>, packet: PacketView) -> (result: Vec<u8>)
        requires
            old(self).wf(),
            has_header(packet.wire()),
            old(self).objects().contains_key(object_of(packet.wire())),
            method_of(packet.wire()) != DELETE_REQUEST ==> old(stack)@.len() < PORT_STACK_LIMIT,
        ensures
            final(self).wf(),
            final(self).port() == old(self).port(),
            final(stack)@ == old(stack)@,
            method_of(packet.wire()) == DELETE_REQUEST ==> {
                &&& result@.len() == 0
                &&& final(self).objects() == old(self).objects().remove(object_of(packet.wire()))
                &&& final(self).free_ids() == old(self).free_ids().push(object_of(packet.wire()))
            },
            method_of(packet.wire()) != DELETE_REQUEST ==> {
                &&& final(self).objects() == old(self).objects()
                &&& final(self).free_ids() == old(self).free_ids()
                &&& exists|payload: &[u8]|
                    payload@ == payload_of(packet.wire()) && D::dispatch_and_call.ensures(
                        (&*old(self).objects()[object_of(packet.wire())], method_of(packet.wire()), payload),
                        result,
                    )
            },
    {
        let data = packet.data();
        match self.forward(&packet) {
            Forwarding::Deleted => Vec::new(),
            Forwarding::Call { handler, method } => {
                set_port(stack, self.port.clone());
                let result = handler.dispatch_and_call(method, data);
                remove_port(stack);
                assert(stack@ =~= old(stack)@);
                result
            },
        }
    }

    /// Drops every registered object. The identifiers they held are not freed:
    /// the registry is cleared when its connection end shuts down.
    pub fn clear(&mut self)
        requires
            old(self).wf(),
        ensures
            final(self).wf(),
            final(self).objects() == Map::<ServiceObjectId, Arc<D>>::empty(),
            final(self).free_ids() == old(self).free_ids(),
            final(self).port() == old(self).port(),
    {
        self.service_objects.clear();
    }

    fn delete(&mut self, id: ServiceObjectId)
        requires
            old(self).wf(),
            old(self).objects().contains_key(id),
        ensures
            final(self).wf(),
            final(self).objects() == old(self).objects().remove(id),
            final(self).free_ids() == old(self).free_ids().push(id),
            final(self).port() == old(self).port(),
    {
        let _ = self.service_objects.remove(&id);
        self.available_ids.push_back(id);
        proof {
            let before = old(self).free_ids();
            let after = self.available_ids@;
            assert(after =~= before.push(id));
            assert forall|i: int, j: int| 0 <= i < after.len() && 0 <= j < after.len() && i != j implies after[i]
                != after[j] by {
                if i < before.len() {
                    assert(after[i] == before[i]);
                }
                if j < before.len() {
                    assert(after[j] == before[j]);
                }
            }
        }
    }

    /// Replaces the port that is current while a dispatcher runs.
    pub fn set_port(&mut self, port: P)
        ensures
            final(self).objects() == old(self).objects(),
            final(self).free_ids() == old(self).free_ids(),
            final(self).port() == port,
            old(self).wf() ==> final(self).wf(),
    {
        self.port = port;
    }
}

/// An object that is registered and then deleted leaves the registry with the
/// objects it held before: the delete undoes the registration, and undoes
/// nothing else.
pub proof fn lemma_delete_undoes_register<D>(
    objects: Map<ServiceObjectId, Arc<D>>,
    free_ids: Seq<ServiceObjectId>,
    service_object: Arc<D>,
)
    requires
        free_ids.len() > 0,
        !objects.contains_key(free_ids[0]),
    ensures
        objects.insert(free_ids[0], service_object).remove(free_ids[0]) == objects,
        free_ids.drop_first().push(free_ids[0]).len() == free_ids.len(),
        !objects.insert(free_ids[0], service_object).remove(free_ids[0]).contains_key(free_ids[0]),
{
    assert(objects.insert(free_ids[0], service_object).remove(free_ids[0]) =~= objects);
}

/// A request with the delete method names the object to delete in its object
/// word, whatever slot it travels under and whatever its payload.
pub proof fn lemma_delete_request_names_its_object(slot: u32, id: ServiceObjectId, payload: Seq<u8>)
    ensures
        has_header(crate::packet::header_bytes(slot, id, DELETE_REQUEST) + payload),
        object_of(crate::packet::header_bytes(slot, id, DELETE_REQUEST) + payload) == id,
        method_of(crate::packet::header_bytes(slot, id, DELETE_REQUEST) + payload) == DELETE_REQUEST,
{
    crate::packet::lemma_header_fields(slot, id, DELETE_REQUEST, payload);
}

} // verus!
