use remote_trait_object::packet::Packet;
use remote_trait_object::packet::PacketHeader;
use remote_trait_object::packet::PacketView;
use remote_trait_object::packet::SlotId;
use remote_trait_object::packet::SlotType;
use remote_trait_object::packet::PACKET_HEADER_SIZE;
use remote_trait_object::packet::SLOT_CALL_OR_RETURN_INDICATOR;
use remote_trait_object::packet::UNDECIDED_SLOT;

#[test]
fn packet_header_size() {
    let x = PacketHeader::new(SlotId::new(0), 0, 0);
    let mut buffer = vec![0xff_u8; 12];
    x.write(&mut buffer);
    assert_eq!(buffer, vec![0_u8; 12]);
    assert_eq!(bincode::serialize(&(0_u32, 0_u32, 0_u32)).unwrap().len(), PACKET_HEADER_SIZE);
    assert_eq!(PacketHeader::len(), 12);
    assert_eq!(Packet::new_request(0, 0, &[]).into_vec().len(), PACKET_HEADER_SIZE);
}

#[test]
fn header_words_are_little_endian() {
    let header = PacketHeader::new(SlotId::new(0x0102_0304), 0x0a0b_0c0d, 7);
    let mut buffer = vec![0xee_u8; 15];
    header.write(&mut buffer);
    assert_eq!(buffer, vec![4, 3, 2, 1, 0x0d, 0x0c, 0x0b, 0x0a, 7, 0, 0, 0, 0xee, 0xee, 0xee]);
}

#[test]
fn header_reads_back_what_was_written() {
    let bytes = vec![0x78, 0x56, 0x34, 0x12, 1, 0, 0, 0, 0xff, 0xff, 0xff, 0xff, 9, 9];
    let header = PacketHeader::from_buffer(&bytes);
    assert_eq!(header.slot.as_raw(), 0x1234_5678);
    assert_eq!(header.service_object_id, 1);
    assert_eq!(header.method, u32::MAX);

    let mut again = vec![0_u8; 14];
    again[12] = 9;
    again[13] = 9;
    header.write(&mut again);
    assert_eq!(again, bytes);
}

#[test]
fn view_reads_each_part() {
    let bytes = vec![1, 0, 0, 0x80, 2, 0, 0, 0, 70, 0, 0, 0, 0xde, 0xad];
    let view = PacketView::new(&bytes);
    assert_eq!(view.header(), &bytes[0..12]);
    assert_eq!(view.data(), &[0xde, 0xad]);
    assert_eq!(view.slot().as_raw(), 0x8000_0001);
    assert_eq!(view.object_id(), 2);
    assert_eq!(view.method(), 70);
    assert_eq!(view.to_vec(), bytes);
    assert_eq!(view.to_owned().into_vec(), bytes);
}

#[test]
fn new_request_has_an_undecided_slot() {
    let packet = Packet::new_request(5, 71, &[1, 2, 3]);
    assert_eq!(
        packet.buffer(),
        &[0xff, 0xff, 0xff, 0xff, 5, 0, 0, 0, 71, 0, 0, 0, 1, 2, 3]
    );
    assert_eq!(packet.view().slot().as_raw(), UNDECIDED_SLOT);
    assert_eq!(packet.data(), &[1, 2, 3]);
}

#[test]
fn response_echoes_the_request() {
    let mut request = Packet::new_request(9, 72, &[7, 7]);
    request.set_slot(SlotId::new(3).into_request());
    assert_eq!(request.buffer(), &[3, 0, 0, 0x80, 9, 0, 0, 0, 72, 0, 0, 0, 7, 7]);

    let mut response = Packet::new_response_from_request(request.view());
    assert_eq!(response.buffer(), &[3, 0, 0, 0, 9, 0, 0, 0, 72, 0, 0, 0]);
    assert!(response.data().is_empty());
    response.append_data(&[4, 5]);
    response.append_data(&[6]);
    assert_eq!(response.data(), &[4, 5, 6]);
    assert_eq!(response.view().slot().as_raw(), 3);
    assert_eq!(response.view().object_id(), 9);
    assert_eq!(response.view().method(), 72);
}

#[test]
fn set_slot_changes_nothing_else() {
    let mut packet = Packet::new_from_buffer(vec![0, 0, 0, 0, 1, 2, 3, 4, 5, 6, 7, 8, 9, 10]);
    packet.set_slot(SlotId::new(0x8000_00ff));
    assert_eq!(packet.into_vec(), vec![0xff, 0, 0, 0x80, 1, 2, 3, 4, 5, 6, 7, 8, 9, 10]);
}

#[test]
fn slot_type_follows_the_top_bit() {
    assert!(matches!(SlotId::new(0).get_type(), SlotType::Response));
    assert!(matches!(SlotId::new(SLOT_CALL_OR_RETURN_INDICATOR - 1).get_type(), SlotType::Response));
    assert!(matches!(SlotId::new(SLOT_CALL_OR_RETURN_INDICATOR).get_type(), SlotType::Request));
    assert!(matches!(SlotId::new_request().get_type(), SlotType::Request));
    assert_eq!(SlotId::new_request().as_raw(), 4_294_967_295);
}

#[test]
fn request_bit_goes_on_and_off() {
    let slot = SlotId::new(511);
    let mut request = slot.into_request();
    assert_eq!(request.as_raw(), 2_147_483_648 + 511);
    request.change_to_response();
    assert_eq!(request.as_raw(), 511);
    assert_eq!(request.as_usize(), 511);
}
