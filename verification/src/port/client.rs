//! The calling side of a connection end.
//!
//! The client owns a fixed pool of call slots. A call takes a free slot, goes
//! out as a request that carries the slot, and ends when the response that
//! carries the same slot has come in and been picked up. Slots pair responses
//! with requests; responses may come in any order.

use crate::context::Config;
use crate::packet::has_header;
use crate::packet::header_bytes;
use crate::packet::is_request;
use crate::packet::is_response;
use crate::packet::lemma_header_fields;
use crate::packet::method_of;
use crate::packet::object_of;
use crate::packet::payload_of;
use crate::packet::slot_of;
use crate::packet::Packet;
use crate::packet::PacketView;
use crate::packet::SlotId;
use crate::packet::SLOT_CALL_OR_RETURN_INDICATOR;
use crate::port::server::lemma_response_answers_request;
use crate::port::server::response_bytes;
use crate::queue::Queue;
use crate::transport::TransportError;
use vstd::prelude::*;

verus! {

/// The slots of a fresh client, in the order in which they are handed out.
pub open spec fn initial_slots(count: u32) -> Seq<SlotId> {
    Seq::new(count as nat, |i: int| SlotId(i as u32))
}

/// The response that waits in each of `boxes`, as bytes.
pub open spec fn waiting_bytes(boxes: Seq<Option<Packet>>) -> Seq<Option<Seq<u8>>> {
    Seq::new(
        boxes.len(),
        |i: int|
            match boxes[i] {
                Some(packet) => Some(packet.wire()),
                None => None,
            },
    )
}

/// The call slots of a connection end, and the responses that wait in them.
#[derive(Debug)]
pub struct Client {
    config: Config,
    call_slots: Queue<SlotId>,
    in_flight: Vec<bool>,
    responses: Vec<Option<Packet>>,
    terminated: bool,
}

impl Client {
    /// How many call slots there are.
    pub closed spec fn slot_count(&self) -> nat {
        self.in_flight@.len()
    }

    /// The slots that no call holds, next to be handed out first.
    pub closed spec fn free_slots(&self) -> Seq<SlotId> {
        self.call_slots@
    }

    /// Whether a call holds `slot`.
    pub closed spec fn is_in_flight(&self, slot: u32) -> bool {
        slot < self.in_flight@.len() && self.in_flight@[slot as int]
    }

    /// The response that has come in for `slot` and has not been picked up.
    pub closed spec fn waiting_response(&self, slot: u32) -> Option<Seq<u8>> {
        if slot < self.responses@.len() {
            waiting_bytes(self.responses@)[slot as int]
        } else {
            None
        }
    }

    /// Whether the transport has terminated.
    pub closed spec fn is_terminated(&self) -> bool {
        self.terminated
    }

    /// The configuration this client was made with.
    pub closed spec fn spec_config(&self) -> Config {
        self.config
    }

    /// Every slot is either free or held by one call, never both, no slot is
    /// free twice, and no response waits in a free slot.
    pub closed spec fn wf(&self) -> bool {
        &&& self.in_flight@.len() == self.responses@.len()
        &&& forall|s: int|
            0 <= s < self.in_flight@.len() && !self.in_flight@[s] ==> (#[trigger] self.responses@[s]) is None
        &&& self.in_flight@.len() <= SLOT_CALL_OR_RETURN_INDICATOR
        &&& self.call_slots.capacity() == self.in_flight@.len()
        &&& self.call_slots.wf()
        &&& self.call_slots@.no_duplicates()
        &&& forall|k: int|
            0 <= k < self.call_slots@.len() ==> {
                &&& (#[trigger] self.call_slots@[k])@ < self.in_flight@.len()
                &&& !self.in_flight@[self.call_slots@[k]@ as int]
            }
        &&& forall|s: int|
            0 <= s < self.in_flight@.len() && !#[trigger] self.in_flight@[s] ==> self.call_slots@.contains(
                SlotId(s as u32),
            )
    }

    /// What `wf` says, for callers outside this module: a slot below the
    /// count is free exactly if no call holds it.
    pub proof fn lemma_free_or_in_flight(&self, slot: u32)
        requires
            self.wf(),
            slot < self.slot_count(),
        ensures
            self.slot_count() <= SLOT_CALL_OR_RETURN_INDICATOR,
            self.free_slots().no_duplicates(),
            self.free_slots().contains(SlotId(slot)) <==> !self.is_in_flight(slot),
            self.free_slots().len() <= self.slot_count(),
            !self.is_in_flight(slot) ==> self.waiting_response(slot) is None,
    {
        assert(!self.in_flight@[slot as int] ==> self.responses@[slot as int] is None);
        if self.call_slots@.contains(SlotId(slot)) {
            let k = choose|k: int| 0 <= k < self.call_slots@.len() && self.call_slots@[k] == SlotId(slot);
            assert(self.call_slots@[k]@ == slot);
        }
    }

    /// The slots that calls hold.
    pub open spec fn held_slots(&self) -> Set<SlotId> {
        Set::new(|slot: SlotId| self.is_in_flight(slot@))
    }

    /// Every slot is free or held, and none is both: the free slots and the
    /// held slots together are as many as there are slots. So a call can
    /// start exactly while fewer calls are in flight than there are slots.
    pub proof fn lemma_slots_are_free_or_held(&self)
        requires
            self.wf(),
        ensures
            self.held_slots().finite(),
            self.free_slots().len() + self.held_slots().len() == self.slot_count(),
            self.free_slots().len() > 0 <==> self.held_slots().len() < self.slot_count(),
    {
        let count = self.slot_count();
        let all = Set::new(|slot: SlotId| slot@ < count);
        let free = self.free_slots().to_set();
        let held = self.held_slots();
        lemma_slots_below_finite(count);
        self.free_slots().unique_seq_to_set();
        assert(held.subset_of(all));
        vstd::set_lib::lemma_len_subset(held, all);
        assert((free + held) =~= all) by {
            assert forall|slot: SlotId| all.contains(slot) implies (free + held).contains(slot) by {
                self.lemma_free_or_in_flight(slot@);
            }
            assert forall|slot: SlotId| free.contains(slot) implies all.contains(slot) by {
                let k = choose|k: int| 0 <= k < self.call_slots@.len() && self.call_slots@[k] == slot;
                assert(self.call_slots@[k]@ < count);
            }
        }
        assert(free.intersect(held) =~= Set::<SlotId>::empty()) by {
            assert forall|slot: SlotId| !(free.contains(slot) && held.contains(slot)) by {
                if held.contains(slot) {
                    self.lemma_free_or_in_flight(slot@);
                }
            }
        }
        vstd::set_lib::lemma_set_intersect_union_lens(free, held);
    }

    /// A client with `config.call_slots` slots, all of them free, in
    /// ascending order.
    pub fn new(config: Config) -> (client: Self)
        requires
            config.call_slots as u32 <= SLOT_CALL_OR_RETURN_INDICATOR,
        ensures
            client.wf(),
            client.slot_count() == config.call_slots as u32,
            client.free_slots() == initial_slots(config.call_slots as u32),
            !client.is_terminated(),
            client.spec_config() == config,
            forall|slot: u32| !client.is_in_flight(slot) && client.waiting_response(slot) is None,
    {
        let callslot_size = SlotId::new(
            #[verifier::truncate]
            (config.call_slots as u32),
        );
        let mut call_slots: Queue<SlotId> = Queue::new(callslot_size.as_usize());
        let mut in_flight: Vec<bool> = Vec::new();
        let mut responses: Vec<Option<Packet>> = Vec::new();

        let mut i: u32 = 0;
        while i < callslot_size.as_raw()
            invariant
                i <= callslot_size@,
                callslot_size@ <= SLOT_CALL_OR_RETURN_INDICATOR,
                call_slots.capacity() == callslot_size@,
                call_slots@ == initial_slots(i),
                in_flight@ == Seq::new(i as nat, |k: int| false),
                responses@ == Seq::new(i as nat, |k: int| None::<Packet>),
            decreases callslot_size@ - i,
        {
            let _ = call_slots.push(SlotId::new(i));
            in_flight.push(false);
            responses.push(None);
            assert(call_slots@ =~= initial_slots((i + 1) as u32));
            assert(in_flight@ =~= Seq::new((i + 1) as nat, |k: int| false));
            assert(responses@ =~= Seq::new((i + 1) as nat, |k: int| None::<Packet>));
            i += 1;
        }

        let client = Client { config, call_slots, in_flight, responses, terminated: false };
        proof {
            assert forall|s: int|
                0 <= s < client.in_flight@.len() && !#[trigger] client.in_flight@[s] implies client.call_slots@.contains(
                SlotId(s as u32),
            ) by {
                assert(client.call_slots@[s] == SlotId(s as u32));
            }
        }
        client
    }

    /// The configuration this client was made with.
    pub fn config(&self) -> (config: &Config)
        ensures
            *config == self.spec_config(),
    {
        &self.config
    }

    /// Whether a call could start now.
    pub fn has_free_slot(&self) -> (free: bool)
        ensures
            free == (self.free_slots().len() > 0),
    {
        self.call_slots.len() > 0
    }

    /// Starts a call: takes the oldest free slot and returns the request to
    /// send, which is `packet` with its slot word set to that slot with the
    /// request bit. Fails with `Termination` once the transport has terminated,
    /// and with `TimeOut` when every slot is held.
    pub fn begin_call(&mut self, packet: PacketView) -> (result: Result<Packet, TransportError>)
        requires
            old(self).wf(),
            has_header(packet.wire()),
        ensures
            final(self).wf(),
            final(self).slot_count() == old(self).slot_count(),
            final(self).is_terminated() == old(self).is_terminated(),
            final(self).spec_config() == old(self).spec_config(),
            forall|s: u32| final(self).waiting_response(s) == old(self).waiting_response(s),
            old(self).is_terminated() ==> result == Err::<Packet, TransportError>(
                TransportError::Termination,
            ),
            !old(self).is_terminated() && old(self).free_slots().len() == 0 ==> result == Err::<
                Packet,
                TransportError,
            >(TransportError::TimeOut),
            result is Err ==> final(self).free_slots() == old(self).free_slots() && forall|s: u32|
                final(self).is_in_flight(s) == old(self).is_in_flight(s),
            !old(self).is_terminated() && old(self).free_slots().len() > 0 ==> {
                let slot = old(self).free_slots()[0]@;
                &&& result is Ok
                &&& result->Ok_0.wire() == request_bytes(packet.wire(), slot)
                &&& slot < old(self).slot_count()
                &&& !old(self).is_in_flight(slot)
                &&& final(self).waiting_response(slot) is None
                &&& final(self).free_slots() == old(self).free_slots().drop_first()
                &&& forall|s: u32|
                    final(self).is_in_flight(s) == (s == slot || old(self).is_in_flight(s))
            },
    {
        if self.terminated {
            return Err(TransportError::Termination);
        }
        if self.call_slots.len() == 0 {
            return Err(TransportError::TimeOut);
        }
        let popped = self.call_slots.pop(self.config.call_timeout);
        let slot = match popped {
            Ok(slot) => slot,
            Err(_) => {
                return Err(TransportError::TimeOut);
            },
        };
        assert(slot == old(self).call_slots@[0]);
        assert(slot@ < self.in_flight@.len());
        self.in_flight.set(slot.as_usize(), true);

        let mut request = packet.to_owned();
        request.set_slot(slot.into_request());

        proof {
            let before = old(self).call_slots@;
            let after = self.call_slots@;
            assert forall|k: int| 0 <= k < after.len() implies {
                &&& (#[trigger] after[k])@ < self.in_flight@.len()
                &&& !self.in_flight@[after[k]@ as int]
            } by {
                assert(after[k] == before[k + 1]);
                assert(before[k + 1] != before[0]);
            }
            assert forall|s: int|
                0 <= s < self.in_flight@.len() && !#[trigger] self.in_flight@[s] implies after.contains(
                SlotId(s as u32),
            ) by {
                assert(!old(self).in_flight@[s]);
                assert(before.contains(SlotId(s as u32)));
                let k = choose|k: int| 0 <= k < before.len() && before[k] == SlotId(s as u32);
                assert(k > 0);
                assert(after[k - 1] == before[k]);
            }
        }
        Ok(request)
    }

    /// Whether `packet` can be taken in as a response: it has a header, a
    /// call holds the slot it names, and no earlier response waits there.
    pub fn can_receive(&self, packet: &PacketView) -> (ok: bool)
        requires
            self.wf(),
        ensures
            ok == (has_header(packet.wire()) && self.is_in_flight(slot_of(packet.wire()))
                && self.waiting_response(slot_of(packet.wire())) is None),
    {
        if packet.to_vec().len() < 12 {
            return false;
        }
        let slot = packet.slot().as_usize();
        if slot >= self.responses.len() {
            return false;
        }
        self.in_flight[slot] && self.responses[slot].is_none()
    }

    /// Takes in a response from the transport: it waits at the slot that its
    /// slot word names until the call that holds that slot picks it up. No
    /// other slot is touched.
    pub fn receive(&mut self, packet: Packet) -> (slot: SlotId)
        requires
            old(self).wf(),
            has_header(packet.wire()),
            old(self).is_in_flight(slot_of(packet.wire())),
            old(self).waiting_response(slot_of(packet.wire())) is None,
        ensures
            final(self).wf(),
            slot@ == slot_of(packet.wire()),
            final(self).slot_count() == old(self).slot_count(),
            final(self).free_slots() == old(self).free_slots(),
            final(self).is_terminated() == old(self).is_terminated(),
            final(self).spec_config() == old(self).spec_config(),
            forall|s: u32| final(self).is_in_flight(s) == old(self).is_in_flight(s),
            final(self).waiting_response(slot@) == Some(packet.wire()),
            forall|s: u32| s != slot@ ==> final(self).waiting_response(s) == old(self).waiting_response(s),
    {
        let slot_id = packet.view().slot();
        self.responses.set(slot_id.as_usize(), Some(packet));
        slot_id
    }

    /// Ends the wait of the call that holds `slot`. Once the transport has
    /// terminated the call fails with `Termination`. Otherwise, if the
    /// response has come in, it is handed out and the slot becomes free again,
    /// last in line; if it has not, the answer is `None` and nothing changes.
    pub fn take_response(&mut self, slot: SlotId) -> (result: Option<Result<Packet, TransportError>>)
        requires
            old(self).wf(),
            old(self).is_in_flight(slot@),
        ensures
            final(self).wf(),
            final(self).slot_count() == old(self).slot_count(),
            final(self).is_terminated() == old(self).is_terminated(),
            final(self).spec_config() == old(self).spec_config(),
            forall|s: u32| s != slot@ ==> final(self).waiting_response(s) == old(self).waiting_response(s),
            forall|s: u32| s != slot@ ==> final(self).is_in_flight(s) == old(self).is_in_flight(s),
            old(self).is_terminated() ==> {
                &&& result == Some(Err::<Packet, TransportError>(TransportError::Termination))
                &&& final(self).free_slots() == old(self).free_slots()
                &&& final(self).is_in_flight(slot@)
                &&& final(self).waiting_response(slot@) == old(self).waiting_response(slot@)
            },
            !old(self).is_terminated() && old(self).waiting_response(slot@) is None ==> {
                &&& result is None
                &&& final(self).free_slots() == old(self).free_slots()
                &&& final(self).is_in_flight(slot@)
                &&& final(self).waiting_response(slot@) is None
            },
            !old(self).is_terminated() && old(self).waiting_response(slot@) is Some ==> {
                &&& result matches Some(Ok(packet))
                &&& Some(packet.wire()) == old(self).waiting_response(slot@)
                &&& final(self).free_slots() == old(self).free_slots().push(slot)
                &&& !final(self).is_in_flight(slot@)
                &&& final(self).waiting_response(slot@) is None
            },
    {
        if self.terminated {
            return Some(Err(TransportError::Termination));
        }
        let index = slot.as_usize();
        if self.responses[index].is_none() {
            return None;
        }
        let mut taken: Option<Packet> = None;
        std::mem::swap(&mut self.responses[index], &mut taken);
        self.free_slot(slot);
        Some(Ok(taken.unwrap()))
    }

    /// Gives up the call that holds `slot`, as when its request could not be
    /// sent or its response did not come in time. The slot becomes free again,
    /// last in line, and a response that waited there is dropped.
    pub fn abandon_call(&mut self, slot: SlotId)
        requires
            old(self).wf(),
            old(self).is_in_flight(slot@),
        ensures
            final(self).wf(),
            final(self).slot_count() == old(self).slot_count(),
            final(self).is_terminated() == old(self).is_terminated(),
            final(self).spec_config() == old(self).spec_config(),
            final(self).free_slots() == old(self).free_slots().push(slot),
            !final(self).is_in_flight(slot@),
            final(self).waiting_response(slot@) is None,
            forall|s: u32| s != slot@ ==> final(self).waiting_response(s) == old(self).waiting_response(s),
            forall|s: u32| s != slot@ ==> final(self).is_in_flight(s) == old(self).is_in_flight(s),
    {
        self.responses.set(slot.as_usize(), None);
        self.free_slot(slot);
    }

    /// Puts a slot that a call holds back among the free ones, last in line.
    fn free_slot(&mut self, slot: SlotId)
        requires
            old(self).wf(),
            old(self).is_in_flight(slot@),
            old(self).responses@[slot@ as int] is None,
        ensures
            final(self).wf(),
            final(self).responses == old(self).responses,
            final(self).in_flight@ == old(self).in_flight@.update(slot@ as int, false),
            final(self).call_slots@ == old(self).call_slots@.push(slot),
            final(self).terminated == old(self).terminated,
            final(self).config == old(self).config,
    {
        let index = slot.as_usize();
        self.in_flight.set(index, false);
        proof {
            let before = old(self).call_slots@;
            assert forall|k: int| 0 <= k < before.len() implies #[trigger] before[k] != slot by {
                assert(!old(self).in_flight@[before[k]@ as int]);
            }
            assert(before.len() < self.call_slots.capacity()) by {
                lemma_missing_slot_leaves_room(before, self.in_flight@.len(), slot);
            }
        }
        let _ = self.call_slots.push(slot);
        proof {
            let before = old(self).call_slots@;
            let after = self.call_slots@;
            assert forall|i: int, j: int| 0 <= i < after.len() && 0 <= j < after.len() && i != j implies after[i]
                != after[j] by {
                if i < before.len() {
                    assert(after[i] == before[i]);
                }
                if j < before.len() {
                    assert(after[j] == before[j]);
                }
            }
            assert forall|s: int|
                0 <= s < self.in_flight@.len() && !#[trigger] self.in_flight@[s] implies after.contains(
                SlotId(s as u32),
            ) by {
                if s == index {
                    assert(after[before.len() as int] == slot);
                } else {
                    assert(before.contains(SlotId(s as u32)));
                    let k = choose|k: int| 0 <= k < before.len() && before[k] == SlotId(s as u32);
                    assert(after[k] == before[k]);
                }
            }
        }
    }

    /// Records that the transport has terminated. From now on no call starts,
    /// and every call that waits fails.
    pub fn shutdown(&mut self)
        requires
            old(self).wf(),
        ensures
            final(self).wf(),
            final(self).is_terminated(),
            final(self).slot_count() == old(self).slot_count(),
            final(self).free_slots() == old(self).free_slots(),
            final(self).spec_config() == old(self).spec_config(),
            forall|s: u32| final(self).is_in_flight(s) == old(self).is_in_flight(s),
            forall|s: u32| final(self).waiting_response(s) == old(self).waiting_response(s),
    {
        self.terminated = true;
    }
}

/// The bytes of the request that a call sends: `packet` with its slot word set
/// to `slot` with the request bit.
pub open spec fn request_bytes(packet: Seq<u8>, slot: u32) -> Seq<u8>
    recommends
        has_header(packet),
        slot < SLOT_CALL_OR_RETURN_INDICATOR,
{
    header_bytes(
        (slot + SLOT_CALL_OR_RETURN_INDICATOR) as u32,
        object_of(packet),
        method_of(packet),
    ) + payload_of(packet)
}

/// The request of a call is a request under the call's slot, and differs from
/// the packet it was made from in the slot word only.
pub proof fn lemma_request_carries_slot(packet: Seq<u8>, slot: u32)
    requires
        has_header(packet),
        slot < SLOT_CALL_OR_RETURN_INDICATOR,
    ensures
        is_request(request_bytes(packet, slot)),
        slot_of(request_bytes(packet, slot)) == slot + SLOT_CALL_OR_RETURN_INDICATOR,
        object_of(request_bytes(packet, slot)) == object_of(packet),
        method_of(request_bytes(packet, slot)) == method_of(packet),
        payload_of(request_bytes(packet, slot)) == payload_of(packet),
{
    lemma_header_fields(
        (slot + SLOT_CALL_OR_RETURN_INDICATOR) as u32,
        object_of(packet),
        method_of(packet),
        payload_of(packet),
    );
}

/// Each call observes its own response and no other's. Take two calls that
/// are in flight at once, under the slots `mine` and `other`, and the
/// responses that the other side builds for their requests. The response to my
/// request is a response that names my slot, so the client puts it where my
/// call waits; the response to the other call names the other slot, so the
/// client puts it elsewhere. What my call picks up carries the payload that
/// the other side gave to my request's response.
pub proof fn lemma_call_observes_own_response(
    my_packet: Seq<u8>,
    other_packet: Seq<u8>,
    mine: u32,
    other: u32,
    my_payload: Seq<u8>,
    other_payload: Seq<u8>,
)
    requires
        has_header(my_packet),
        has_header(other_packet),
        mine < SLOT_CALL_OR_RETURN_INDICATOR,
        other < SLOT_CALL_OR_RETURN_INDICATOR,
        mine != other,
    ensures
        is_response(response_bytes(request_bytes(my_packet, mine), my_payload)),
        slot_of(response_bytes(request_bytes(my_packet, mine), my_payload)) == mine,
        slot_of(response_bytes(request_bytes(other_packet, other), other_payload)) == other,
        payload_of(response_bytes(request_bytes(my_packet, mine), my_payload)) == my_payload,
        object_of(response_bytes(request_bytes(my_packet, mine), my_payload)) == object_of(my_packet),
        method_of(response_bytes(request_bytes(my_packet, mine), my_payload)) == method_of(my_packet),
{
    lemma_request_carries_slot(my_packet, mine);
    lemma_request_carries_slot(other_packet, other);
    lemma_response_answers_request(request_bytes(my_packet, mine), my_payload);
    lemma_response_answers_request(request_bytes(other_packet, other), other_payload);
}

/// What goes into a call comes out of it unchanged when the dispatcher on the
/// other side hands its arguments back: the payload of the response is the
/// payload of the packet that the call was made from.
pub proof fn lemma_echo_round_trip(packet: Seq<u8>, slot: u32)
    requires
        has_header(packet),
        slot < SLOT_CALL_OR_RETURN_INDICATOR,
    ensures
        payload_of(
            response_bytes(request_bytes(packet, slot), payload_of(request_bytes(packet, slot))),
        ) == payload_of(packet),
{
    lemma_request_carries_slot(packet, slot);
    lemma_response_answers_request(
        request_bytes(packet, slot),
        payload_of(request_bytes(packet, slot)),
    );
}

/// A duplicate-free sequence of slots below `count` that misses one of them is
/// shorter than `count`.
proof fn lemma_missing_slot_leaves_room(free: Seq<SlotId>, count: nat, missing: SlotId)
    requires
        free.no_duplicates(),
        forall|k: int| 0 <= k < free.len() ==> (#[trigger] free[k])@ < count,
        forall|k: int| 0 <= k < free.len() ==> #[trigger] free[k] != missing,
        missing@ < count,
    ensures
        free.len() < count,
{
    let ids = free.to_set();
    let all = Set::new(|s: SlotId| s@ < count);
    free.unique_seq_to_set();
    assert(all =~= Set::new(|s: SlotId| s@ < count));
    lemma_slots_below_finite(count);
    assert(ids.subset_of(all.remove(missing))) by {
        assert forall|s: SlotId| ids.contains(s) implies all.remove(missing).contains(s) by {
            let k = choose|k: int| 0 <= k < free.len() && free[k] == s;
            assert(free[k]@ < count);
        }
    }
    vstd::set_lib::lemma_len_subset(ids, all.remove(missing));
}

/// There are exactly `count` slots below `count`.
proof fn lemma_slots_below_finite(count: nat)
    ensures
        Set::new(|s: SlotId| s@ < count).finite(),
        Set::new(|s: SlotId| s@ < count).len() == if count <= u32::MAX + 1 {
            count
        } else {
            (u32::MAX + 1) as nat
        },
    decreases count,
{
    let all = Set::new(|s: SlotId| s@ < count);
    if count == 0 {
        assert(all =~= Set::<SlotId>::empty());
    } else if count > u32::MAX + 1 {
        lemma_slots_below_finite((count - 1) as nat);
        assert(all =~= Set::new(|s: SlotId| s@ < (count - 1) as nat));
    } else {
        lemma_slots_below_finite((count - 1) as nat);
        let fewer = Set::new(|s: SlotId| s@ < (count - 1) as nat);
        let top = SlotId((count - 1) as u32);
        assert(all =~= fewer.insert(top));
        assert(!fewer.contains(top));
    }
}

} // verus!
