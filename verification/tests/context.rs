use remote_trait_object::context::call_in_place;
use remote_trait_object::context::Barrier;
use remote_trait_object::context::Config;
use remote_trait_object::context::MetaService;
use remote_trait_object::context::MetaServiceImpl;
use remote_trait_object::context::PacketForward;
use remote_trait_object::packet::Packet;
use remote_trait_object::packet::SlotId;
use remote_trait_object::service::export_import::create_skeleton;
use remote_trait_object::service::serde_support::PortStack;
use remote_trait_object::transport::multiplex::receiver_step;
use remote_trait_object::transport::multiplex::Forward;
use remote_trait_object::transport::multiplex::ForwardResult;
use remote_trait_object::transport::multiplex::Multiplexed;
use remote_trait_object::transport::multiplex::Multiplexer;
use remote_trait_object::transport::TransportError;
use std::time::Duration;

#[test]
fn default_setup() {
    let config = Config::default_setup();
    assert_eq!(config.name, "my rto");
    assert_eq!(config.call_slots, 512);
    assert_eq!(config.maximum_services_num, 65536);
    assert_eq!(config.call_timeout, Some(Duration::from_millis(1000)));
    let copy = config.clone();
    assert_eq!(copy.name, "my rto");
    assert_eq!(copy.call_slots, 512);
    assert_eq!(copy.maximum_services_num, 65536);
    assert_eq!(copy.call_timeout, Some(Duration::from_millis(1000)));
}

#[test]
fn barrier_opens_with_the_last_party() {
    let mut barrier = Barrier::new(2);
    assert!(!barrier.has_opened());
    assert!(!barrier.wait());
    assert!(!barrier.has_opened());
    assert!(barrier.wait());
    assert!(barrier.has_opened());
    assert!(Barrier::new(0).has_opened());
    assert!(Barrier::new(1).wait());
}

#[test]
fn meta_service_arrives_once() {
    let mut meta = MetaServiceImpl::new(Barrier::new(3));
    meta.firm_close();
    meta.firm_close();
    meta.firm_close();
    // One arrival of three: the barrier is still shut.
    let mut barrier = Barrier::new(3);
    assert!(!barrier.wait());
    assert!(!barrier.wait());
    let mut meta = MetaServiceImpl::new(Barrier::new(1));
    meta.firm_close();
    meta.firm_close();
}

fn with_slot(slot: u32) -> Vec<u8> {
    let mut packet = Packet::new_request(1, 70, &[1, 2, 3]);
    packet.set_slot(SlotId::new(slot));
    packet.into_vec()
}

#[test]
fn packets_are_told_apart_by_the_top_bit_of_the_slot() {
    assert_eq!(PacketForward::forward(Packet::new_request(1, 70, &[]).view()), ForwardResult::Request);
    let lowest_request = Packet::new_from_buffer(with_slot(0x8000_0000));
    assert_eq!(PacketForward::forward(lowest_request.view()), ForwardResult::Request);
    let highest_response = Packet::new_from_buffer(with_slot(0x7fff_ffff));
    assert_eq!(PacketForward::forward(highest_response.view()), ForwardResult::Response);
    let zero = Packet::new_from_buffer(with_slot(0));
    assert_eq!(PacketForward::forward(zero.view()), ForwardResult::Response);
}

#[test]
fn receiver_step_hands_each_packet_to_its_stream() {
    let request = with_slot(0x8000_0005);
    match receiver_step::<PacketForward>(Ok(request.clone())) {
        Multiplexed::Request(bytes) => assert_eq!(bytes, request),
        _ => panic!("a request was expected"),
    }
    let response = with_slot(5);
    match receiver_step::<PacketForward>(Ok(response.clone())) {
        Multiplexed::Response(bytes) => assert_eq!(bytes, response),
        _ => panic!("a response was expected"),
    }
    assert!(matches!(
        receiver_step::<PacketForward>(Err(TransportError::Termination)),
        Multiplexed::Closed(TransportError::Termination)
    ));
    assert!(matches!(
        receiver_step::<PacketForward>(Err(TransportError::Custom)),
        Multiplexed::Closed(TransportError::Custom)
    ));
    assert!(matches!(
        receiver_step::<PacketForward>(Err(TransportError::TimeOut)),
        Multiplexed::Closed(TransportError::TimeOut)
    ));
}

#[test]
fn multiplexer_drains_on_the_first_error() {
    let mut multiplexer = Multiplexer::multiplex();
    assert!(!multiplexer.has_drained());
    assert!(matches!(multiplexer.receive::<PacketForward>(Ok(with_slot(0x8000_0000))), Multiplexed::Request(_)));
    assert!(matches!(multiplexer.receive::<PacketForward>(Ok(with_slot(7))), Multiplexed::Response(_)));
    assert!(!multiplexer.has_drained());
    assert!(matches!(
        multiplexer.receive::<PacketForward>(Err(TransportError::Termination)),
        Multiplexed::Closed(TransportError::Termination)
    ));
    assert!(multiplexer.has_drained());

    let mut multiplexer = Multiplexer::multiplex();
    multiplexer.shutdown();
    assert!(multiplexer.has_drained());
}

struct Adder;

impl remote_trait_object::service::Dispatch for Adder {
    fn dispatch_and_call(&self, method: u32, args: &[u8]) -> Vec<u8> {
        assert_eq!(method, 70);
        vec![args[0] + args[1]]
    }
}

fn end(side: u8, initial: remote_trait_object::raw_exchange::Skeleton<Adder>) -> remote_trait_object::Context<Adder, u8> {
    remote_trait_object::Context::with_initial_service_export(
        Config::default_setup(),
        remote_trait_object::ServiceToExport::<Adder, Adder>::from_skeleton(initial),
        create_skeleton(std::sync::Arc::new(Adder)),
        side,
    )
}

impl remote_trait_object::Service for Adder {}

#[test]
fn a_call_served_in_place() {
    let mut caller = end(0, create_skeleton(std::sync::Arc::new(Adder)));
    let mut callee = end(1, create_skeleton(std::sync::Arc::new(Adder)));
    let mut stack: PortStack<Option<u8>> = PortStack::new();

    let request = caller.begin_call(Packet::new_request(1, 70, &[2, 3]).view()).unwrap();
    assert_eq!(request.buffer(), &[0, 0, 0, 0x80, 1, 0, 0, 0, 70, 0, 0, 0, 2, 3]);
    let reply = callee.serve(&mut stack, Ok(request.into_vec())).unwrap();
    assert_eq!(reply.buffer(), &[0, 0, 0, 0, 1, 0, 0, 0, 70, 0, 0, 0, 5]);
    assert!(!callee.is_serving());
    assert_eq!(stack.depth(), 0);

    assert!(caller.take_response(SlotId::new(0)).is_none());
    assert!(caller.serve(&mut stack, Ok(reply.into_vec())).is_none());
    let response = caller.take_response(SlotId::new(0)).unwrap().unwrap();
    assert_eq!(response.data(), &[5]);

    // A delete request is answered with an empty payload.
    let delete = caller.delete_request(1).unwrap();
    let request = caller.begin_call(delete.view()).unwrap();
    let reply = callee.serve(&mut stack, Ok(request.into_vec())).unwrap();
    assert!(reply.data().is_empty());
    assert!(!callee.is_registered(1));

    assert!(callee.serve(&mut stack, Err(TransportError::Termination)).is_none());
    assert_eq!(callee.current_state(), remote_trait_object::context::ContextState::Closed);
}

#[test]
fn calls_in_place() {
    let mut caller = end(0, create_skeleton(std::sync::Arc::new(Adder)));
    let mut callee = end(1, create_skeleton(std::sync::Arc::new(Adder)));
    let mut stack: PortStack<Option<u8>> = PortStack::new();

    for i in 0..600_u32 {
        let a = (i % 100) as u8;
        let packet = Packet::new_request(1, 70, &[a, 7]);
        assert_eq!(call_in_place(&mut caller, &mut callee, &mut stack, packet.view()), Ok(vec![a + 7]));
    }
    assert_eq!(stack.depth(), 0);
    assert!(!callee.is_serving());

    // The call of the other direction.
    let packet = Packet::new_request(1, 70, &[1, 1]);
    assert_eq!(call_in_place(&mut callee, &mut caller, &mut stack, packet.view()), Ok(vec![2]));

    // A delete request comes back empty and removes its target.
    let delete = caller.delete_request(1).unwrap();
    assert_eq!(call_in_place(&mut caller, &mut callee, &mut stack, delete.view()), Ok(vec![]));
    assert!(!callee.is_registered(1));
    assert_eq!(callee.registry_len(), 1);
}

#[test]
fn call_in_place_needs_a_free_slot() {
    let mut config = Config::default_setup();
    config.call_slots = 1;
    let mut caller: remote_trait_object::Context<Adder, u8> = remote_trait_object::Context::new(
        config,
        create_skeleton(std::sync::Arc::new(Adder)),
        create_skeleton(std::sync::Arc::new(Adder)),
        0,
    );
    let mut callee = end(1, create_skeleton(std::sync::Arc::new(Adder)));
    let mut stack: PortStack<Option<u8>> = PortStack::new();
    let packet = Packet::new_request(1, 70, &[1, 2]);

    let held = caller.begin_call(packet.view()).unwrap();
    assert_eq!(
        call_in_place(&mut caller, &mut callee, &mut stack, packet.view()),
        Err(TransportError::TimeOut)
    );
    assert!(!callee.is_serving());
    caller.abandon_call(SlotId::new(held.view().slot().as_raw() - 0x8000_0000));
    assert_eq!(call_in_place(&mut caller, &mut callee, &mut stack, packet.view()), Ok(vec![3]));
}
