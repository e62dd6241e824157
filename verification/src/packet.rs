//! The wire packet: a fixed twelve-byte header followed by an opaque payload.
//!
//! The header holds three unsigned 32-bit words, each little-endian: the slot,
//! the target object and the method. The top bit of the slot word tells a
//! request from a response; the remaining bits name the call slot, and are the
//! same in a request and in its response.

use crate::forwarder::ServiceObjectId;
use crate::service::MethodId;
use vstd::prelude::*;
use vstd::slice::slice_subrange;
use vstd::slice::slice_to_vec;

verus! {

/// The slot word of a request that no call slot has been assigned to yet.
pub const UNDECIDED_SLOT: u32 = 4_294_967_295;

/// Slot words at or above this value mark a request; below it, a response.
pub const SLOT_CALL_OR_RETURN_INDICATOR: u32 = 2_147_483_648;

/// Number of bytes the header takes on the wire.
pub const PACKET_HEADER_SIZE: usize = 12;

/// The four bytes of `x`, least significant first.
#[verifier::opaque]
pub open spec fn le_bytes(x: u32) -> Seq<u8> {
    seq![
        (x % 256) as u8,
        ((x / 256) % 256) as u8,
        ((x / 65536) % 256) as u8,
        ((x / 16777216) % 256) as u8,
    ]
}

/// The word that the first four bytes of `b` spell, least significant first.
#[verifier::opaque]
pub open spec fn le_value(b: Seq<u8>) -> u32
    recommends
        b.len() >= 4,
{
    (b[0] as int + 256 * (b[1] as int) + 65536 * (b[2] as int) + 16777216 * (b[3] as int)) as u32
}

/// The twelve header bytes for the given three words.
pub open spec fn header_bytes(slot: u32, object: ServiceObjectId, method: MethodId) -> Seq<u8> {
    le_bytes(slot) + le_bytes(object) + le_bytes(method)
}

/// Whether `bytes` is long enough to hold a header.
pub open spec fn has_header(bytes: Seq<u8>) -> bool {
    bytes.len() >= 12
}

/// The slot word of a packet.
pub open spec fn slot_of(bytes: Seq<u8>) -> u32
    recommends
        has_header(bytes),
{
    le_value(bytes.subrange(0, 4))
}

/// The object word of a packet.
pub open spec fn object_of(bytes: Seq<u8>) -> ServiceObjectId
    recommends
        has_header(bytes),
{
    le_value(bytes.subrange(4, 8))
}

/// The method word of a packet.
pub open spec fn method_of(bytes: Seq<u8>) -> MethodId
    recommends
        has_header(bytes),
{
    le_value(bytes.subrange(8, 12))
}

/// What follows the header of a packet.
pub open spec fn payload_of(bytes: Seq<u8>) -> Seq<u8>
    recommends
        has_header(bytes),
{
    bytes.skip(12)
}

/// Whether a packet is a request: its slot word has the top bit set.
pub open spec fn is_request(bytes: Seq<u8>) -> bool {
    has_header(bytes) && slot_of(bytes) >= SLOT_CALL_OR_RETURN_INDICATOR
}

/// Whether a packet is a response: its slot word has the top bit clear.
pub open spec fn is_response(bytes: Seq<u8>) -> bool {
    has_header(bytes) && slot_of(bytes) < SLOT_CALL_OR_RETURN_INDICATOR
}

/// A word survives being written as four bytes and read back.
pub proof fn lemma_le_round_trip(x: u32)
    ensures
        le_bytes(x).len() == 4,
        le_value(le_bytes(x)) == x,
{
    reveal(le_bytes);
    reveal(le_value);
}

/// Four bytes survive being read as a word and written back.
pub proof fn lemma_le_bytes_of_value(b: Seq<u8>)
    requires
        b.len() == 4,
    ensures
        le_bytes(le_value(b)) == b,
{
    reveal(le_bytes);
    reveal(le_value);
    let b0 = b[0] as int;
    let b1 = b[1] as int;
    let b2 = b[2] as int;
    let b3 = b[3] as int;
    let low = b0 + 256 * b1;
    let mid = low + 65536 * b2;
    let v = mid + 16777216 * b3;
    assert(0 <= low < 65536 && 0 <= mid < 16777216 && 0 <= v < 4294967296);
    assert(le_value(b) as int == v);
    assert(v / 16777216 == b3 && v % 16777216 == mid);
    assert(v / 65536 == 256 * b3 + b2 && mid / 65536 == b2 && mid % 65536 == low);
    assert(v / 256 == 65536 * b3 + 256 * b2 + b1 && low / 256 == b1 && low % 256 == b0);
    assert(v % 256 == b0);
    assert((v / 256) % 256 == b1);
    assert((v / 65536) % 256 == b2);
    assert((v / 16777216) % 256 == b3);
    assert(le_bytes(le_value(b)) =~= b);
}

/// A packet made of a header and a payload reads back as exactly those parts.
pub proof fn lemma_header_fields(slot: u32, object: ServiceObjectId, method: MethodId, payload: Seq<u8>)
    ensures
        header_bytes(slot, object, method).len() == 12,
        has_header(header_bytes(slot, object, method) + payload),
        slot_of(header_bytes(slot, object, method) + payload) == slot,
        object_of(header_bytes(slot, object, method) + payload) == object,
        method_of(header_bytes(slot, object, method) + payload) == method,
        payload_of(header_bytes(slot, object, method) + payload) == payload,
{
    let bytes = header_bytes(slot, object, method) + payload;
    lemma_le_round_trip(slot);
    lemma_le_round_trip(object);
    lemma_le_round_trip(method);
    assert(bytes.subrange(0, 4) =~= le_bytes(slot));
    assert(bytes.subrange(4, 8) =~= le_bytes(object));
    assert(bytes.subrange(8, 12) =~= le_bytes(method));
    assert(bytes.skip(12) =~= payload);
}

/// Every packet with a header is its three header words followed by its payload.
pub proof fn lemma_packet_is_header_and_payload(bytes: Seq<u8>)
    requires
        has_header(bytes),
    ensures
        bytes == header_bytes(slot_of(bytes), object_of(bytes), method_of(bytes)) + payload_of(bytes),
{
    lemma_le_bytes_of_value(bytes.subrange(0, 4));
    lemma_le_bytes_of_value(bytes.subrange(4, 8));
    lemma_le_bytes_of_value(bytes.subrange(8, 12));
    assert(bytes =~= header_bytes(slot_of(bytes), object_of(bytes), method_of(bytes)) + payload_of(
        bytes,
    ));
}

/// Calls `bincode::deserialize_from` on the buffer, reading a tuple of three
/// `u32`. With the options that function fixes (fixed-width integers, little
/// endian, trailing bytes allowed) the result is the three little-endian words
/// at offsets 0, 4 and 8. The buffer must hold twelve bytes, else bincode
/// fails.
#[verifier::external_body]
fn decode_header_words(buffer: &[u8]) -> (words: (u32, u32, u32))
    requires
        buffer@.len() >= 12,
    ensures
        words.0 == le_value(buffer@.subrange(0, 4)),
        words.1 == le_value(buffer@.subrange(4, 8)),
        words.2 == le_value(buffer@.subrange(8, 12)),
{
    bincode::deserialize_from(buffer).unwrap()
}

/// Calls `bincode::serialize_into` with the buffer as the writer and a tuple
/// of three `u32` as the value. With the options that function fixes this
/// writes the three words little-endian over the first twelve bytes and leaves
/// the rest of the buffer as it was. The buffer must hold twelve bytes, else
/// the write fails.
#[verifier::external_body]
fn encode_header_words(buffer: &mut [u8], slot: u32, object: u32, method: u32)
    requires
        old(buffer)@.len() >= 12,
    ensures
        final(buffer)@ == header_bytes(slot, object, method) + old(buffer)@.skip(12),
{
    bincode::serialize_into(buffer, &(slot, object, method)).unwrap()
}

/// The slot word of a packet.
#[derive(Debug, Clone, Copy)]
pub struct SlotId(pub u32);

/// The direction a slot word stands for.
#[derive(Debug)]
pub enum SlotType {
    Request,
    Response,
}

impl View for SlotId {
    type V = u32;

    open spec fn view(&self) -> u32 {
        self.0
    }
}

impl SlotId {
    pub fn new(num: u32) -> (slot: Self)
        ensures
            slot@ == num,
    {
        Self(num)
    }

    /// The slot word that a fresh request carries until a call slot is assigned.
    pub fn new_request() -> (slot: Self)
        ensures
            slot@ == UNDECIDED_SLOT,
    {
        Self(UNDECIDED_SLOT)
    }

    pub fn get_type(&self) -> (ty: SlotType)
        ensures
            ty is Request <==> self@ >= SLOT_CALL_OR_RETURN_INDICATOR,
            ty is Response <==> self@ < SLOT_CALL_OR_RETURN_INDICATOR,
    {
        if self.0 >= SLOT_CALL_OR_RETURN_INDICATOR {
            SlotType::Request
        } else {
            SlotType::Response
        }
    }

    /// Clears the request bit.
    pub fn change_to_response(&mut self)
        requires
            old(self)@ >= SLOT_CALL_OR_RETURN_INDICATOR,
        ensures
            final(self)@ == old(self)@ - SLOT_CALL_OR_RETURN_INDICATOR,
            final(self)@ < SLOT_CALL_OR_RETURN_INDICATOR,
    {
        self.0 -= SLOT_CALL_OR_RETURN_INDICATOR;
    }

    /// Sets the request bit.
    pub fn into_request(self) -> (slot: Self)
        requires
            self@ < SLOT_CALL_OR_RETURN_INDICATOR,
        ensures
            slot@ == self@ + SLOT_CALL_OR_RETURN_INDICATOR,
            slot@ >= SLOT_CALL_OR_RETURN_INDICATOR,
    {
        Self(self.0 + SLOT_CALL_OR_RETURN_INDICATOR)
    }

    pub fn as_usize(&self) -> (n: usize)
        ensures
            n == self@,
    {
        self.0 as usize
    }

    pub fn as_raw(&self) -> (n: u32)
        ensures
            n == self@,
    {
        self.0
    }
}

/// Setting the request bit and clearing it again gives the slot back.
pub proof fn lemma_request_bit_round_trip(slot: u32)
    requires
        slot < SLOT_CALL_OR_RETURN_INDICATOR,
    ensures
        slot + SLOT_CALL_OR_RETURN_INDICATOR <= u32::MAX,
        (slot + SLOT_CALL_OR_RETURN_INDICATOR) - SLOT_CALL_OR_RETURN_INDICATOR == slot,
{
}

/// The three words of a packet header.
pub struct PacketHeader {
    pub slot: SlotId,
    pub service_object_id: ServiceObjectId,
    pub method: MethodId,
}

impl PacketHeader {
    /// The bytes this header takes on the wire.
    pub open spec fn spec_bytes(&self) -> Seq<u8> {
        header_bytes(self.slot@, self.service_object_id, self.method)
    }

    pub fn len() -> (n: usize)
        ensures
            n == PACKET_HEADER_SIZE,
    {
        PACKET_HEADER_SIZE
    }

    pub fn new(slot: SlotId, service_object_id: ServiceObjectId, method: MethodId) -> (header: Self)
        ensures
            header.slot == slot,
            header.service_object_id == service_object_id,
            header.method == method,
    {
        PacketHeader { slot, service_object_id, method }
    }

    /// Reads the header from the first twelve bytes of `buffer`.
    pub fn from_buffer(buffer: &[u8]) -> (header: Self)
        requires
            has_header(buffer@),
        ensures
            header.slot@ == slot_of(buffer@),
            header.service_object_id == object_of(buffer@),
            header.method == method_of(buffer@),
    {
        let words = decode_header_words(buffer);
        PacketHeader { slot: SlotId(words.0), service_object_id: words.1, method: words.2 }
    }

    /// Writes the header over the first twelve bytes of `buffer`.
    pub fn write(&self, buffer: &mut [u8])
        requires
            has_header(old(buffer)@),
        ensures
            final(buffer)@ == self.spec_bytes() + payload_of(old(buffer)@),
    {
        encode_header_words(buffer, self.slot.0, self.service_object_id, self.method)
    }
}

/// A borrowed packet.
#[derive(Debug)]
pub struct PacketView<'a> {
    buffer: &'a [u8],
}

impl<'a> PacketView<'a> {
    /// The bytes of the packet, header first.
    pub closed spec fn wire(&self) -> Seq<u8> {
        self.buffer@
    }

    pub fn new(buffer: &'a [u8]) -> (view: Self)
        ensures
            view.wire() == buffer@,
    {
        Self { buffer }
    }

    pub fn header(&self) -> (header: &'a [u8])
        requires
            has_header(self.wire()),
        ensures
            header@ == self.wire().subrange(0, 12),
    {
        slice_subrange(self.buffer, 0, PacketHeader::len())
    }

    pub fn data(&self) -> (data: &'a [u8])
        requires
            has_header(self.wire()),
        ensures
            data@ == payload_of(self.wire()),
    {
        slice_subrange(self.buffer, PacketHeader::len(), self.buffer.len())
    }

    pub fn slot(&self) -> (slot: SlotId)
        requires
            has_header(self.wire()),
        ensures
            slot@ == slot_of(self.wire()),
    {
        let header = PacketHeader::from_buffer(self.buffer);
        header.slot
    }

    pub fn object_id(&self) -> (id: ServiceObjectId)
        requires
            has_header(self.wire()),
        ensures
            id == object_of(self.wire()),
    {
        PacketHeader::from_buffer(self.buffer).service_object_id
    }

    pub fn method(&self) -> (method: MethodId)
        requires
            has_header(self.wire()),
        ensures
            method == method_of(self.wire()),
    {
        let header = PacketHeader::from_buffer(self.buffer);
        header.method
    }

    pub fn to_vec(&self) -> (bytes: Vec<u8>)
        ensures
            bytes@ == self.wire(),
    {
        slice_to_vec(self.buffer)
    }

    pub fn to_owned(&self) -> (packet: Packet)
        ensures
            packet.wire() == self.wire(),
    {
        Packet::new_from_buffer(slice_to_vec(self.buffer))
    }
}

/// An owned packet.
#[derive(Debug)]
pub struct Packet {
    buffer: Vec<u8>,
}

impl Packet {
    /// The bytes of the packet, header first.
    pub closed spec fn wire(&self) -> Seq<u8> {
        self.buffer@
    }

    pub fn new_from_buffer(buffer: Vec<u8>) -> (packet: Self)
        ensures
            packet.wire() == buffer@,
    {
        Self { buffer }
    }

    /// The header of the response to `request`: the same object and method,
    /// the same slot with the request bit cleared, and no payload yet.
    pub fn new_response_from_request(request: PacketView) -> (packet: Self)
        requires
            is_request(request.wire()),
        ensures
            packet.wire() == header_bytes(
                (slot_of(request.wire()) - SLOT_CALL_OR_RETURN_INDICATOR) as u32,
                object_of(request.wire()),
                method_of(request.wire()),
            ),
    {
        let buffer = slice_to_vec(request.header());
        let mut packet = Self { buffer };
        proof {
            let whole = request.wire();
            let head = whole.subrange(0, 12);
            assert(head.subrange(0, 4) =~= whole.subrange(0, 4));
            assert(head.subrange(4, 8) =~= whole.subrange(4, 8));
            assert(head.subrange(8, 12) =~= whole.subrange(8, 12));
        }

        let mut header = packet.header();
        header.slot.change_to_response();
        header.write(packet.buffer.as_mut_slice());
        assert(packet.buffer@ =~= header.spec_bytes());

        packet
    }

    /// A request for `method` on `service_object_id` with `args` as payload. Its
    /// slot word is still undecided.
    pub fn new_request(service_object_id: ServiceObjectId, method: MethodId, args: &[u8]) -> (packet:
        Self)
        requires
            args@.len() + 12 <= usize::MAX,
        ensures
            packet.wire() == header_bytes(UNDECIDED_SLOT, service_object_id, method) + args@,
    {
        let mut buffer: Vec<u8> = Vec::new();
        buffer.resize(PacketHeader::len(), 0u8);
        let header = PacketHeader::new(SlotId::new_request(), service_object_id, method);
        header.write(buffer.as_mut_slice());
        assert(buffer@ =~= header.spec_bytes());
        buffer.extend_from_slice(args);
        Self { buffer }
    }

    pub fn buffer(&self) -> (bytes: &[u8])
        ensures
            bytes@ == self.wire(),
    {
        self.buffer.as_slice()
    }

    pub fn view(&self) -> (view: PacketView<'_>)
        ensures
            view.wire() == self.wire(),
    {
        PacketView::new(self.buffer.as_slice())
    }

    fn header(&mut self) -> (header: PacketHeader)
        requires
            has_header(old(self).wire()),
        ensures
            *final(self) == *old(self),
            header.slot@ == slot_of(old(self).wire()),
            header.service_object_id == object_of(old(self).wire()),
            header.method == method_of(old(self).wire()),
    {
        PacketHeader::from_buffer(self.buffer.as_slice())
    }

    pub fn data(&self) -> (data: &[u8])
        requires
            has_header(self.wire()),
        ensures
            data@ == payload_of(self.wire()),
    {
        slice_subrange(self.buffer.as_slice(), PacketHeader::len(), self.buffer.len())
    }

    pub fn append_data(&mut self, data: &[u8])
        ensures
            final(self).wire() == old(self).wire() + data@,
    {
        self.buffer.extend_from_slice(data);
    }

    /// Rewrites the slot word and leaves the rest of the packet as it was.
    pub fn set_slot(&mut self, slot_id: SlotId)
        requires
            has_header(old(self).wire()),
        ensures
            final(self).wire() == header_bytes(slot_id@, object_of(old(self).wire()), method_of(old(self).wire()))
                + payload_of(old(self).wire()),
    {
        let mut header = self.header();
        header.slot = slot_id;
        header.write(self.buffer.as_mut_slice());
    }

    pub fn into_vec(self) -> (bytes: Vec<u8>)
        ensures
            bytes@ == self.wire(),
    {
        self.buffer
    }
}

} // verus!
