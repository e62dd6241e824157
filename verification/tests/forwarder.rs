use remote_trait_object::context::Config;
use remote_trait_object::forwarder::Forwarding;
use remote_trait_object::forwarder::ServiceForwarder;
use remote_trait_object::forwarder::DELETE_REQUEST;
use remote_trait_object::forwarder::INITIAL_SERVICE_OBJECT_ID;
use remote_trait_object::forwarder::META_SERVICE_OBJECT_ID;
use remote_trait_object::forwarder::NULL_ID;
use remote_trait_object::packet::Packet;
use remote_trait_object::service::export_import::create_skeleton;
use remote_trait_object::service::export_import::Skeleton;
use remote_trait_object::service::serde_support::PortStack;
use remote_trait_object::service::Dispatch;
use remote_trait_object::service::MethodId;
use std::sync::Arc;

struct Tagged(u8);

impl Dispatch for Tagged {
    fn dispatch_and_call(&self, method: MethodId, args: &[u8]) -> Vec<u8> {
        let mut result = vec![self.0, method as u8];
        result.extend_from_slice(args);
        result
    }
}

fn tagged(tag: u8) -> Skeleton<Tagged> {
    create_skeleton(Arc::new(Tagged(tag)))
}

fn registry(maximum_services_num: usize) -> ServiceForwarder<Tagged, u8> {
    let mut config = Config::default_setup();
    config.maximum_services_num = maximum_services_num;
    ServiceForwarder::new(config, tagged(0), tagged(1), 42)
}

#[test]
fn reserved_identifiers() {
    assert_eq!(META_SERVICE_OBJECT_ID, 0);
    assert_eq!(INITIAL_SERVICE_OBJECT_ID, 1);
    assert_eq!(NULL_ID, u32::MAX);
    assert_eq!(DELETE_REQUEST, u32::MAX);
}

#[test]
fn fresh_registry_holds_the_two_reserved_objects() {
    let registry = registry(5);
    assert_eq!(registry.len(), 2);
    assert!(registry.contains(META_SERVICE_OBJECT_ID));
    assert!(registry.contains(INITIAL_SERVICE_OBJECT_ID));
    assert!(!registry.contains(2));
    assert!(!registry.is_exhausted());
    assert_eq!(*registry.current_port(), 42);
}

#[test]
fn identifiers_are_handed_out_in_ascending_order() {
    let mut registry = registry(5);
    assert_eq!(registry.register_service_object(Arc::new(Tagged(10))), 2);
    assert_eq!(registry.register_service_object(Arc::new(Tagged(11))), 3);
    assert!(!registry.is_exhausted());
    assert_eq!(registry.register_service_object(Arc::new(Tagged(12))), 4);
    assert!(registry.is_exhausted());
    assert_eq!(registry.len(), 5);
}

#[test]
fn small_and_wrapping_maximum() {
    assert!(registry(0).is_exhausted());
    assert!(registry(2).is_exhausted());
    assert!(!registry(3).is_exhausted());
    // The maximum counts modulo 2^32.
    let mut wrapped = registry((1 << 32) + 3);
    assert_eq!(wrapped.register_service_object(Arc::new(Tagged(10))), 2);
    assert!(wrapped.is_exhausted());
}

#[test]
fn call_is_forwarded_to_the_target() {
    let mut registry = registry(5);
    let object = Arc::new(Tagged(10));
    let id = registry.register_service_object(Arc::clone(&object));
    let packet = Packet::new_request(id, 71, &[5, 6]);
    match registry.forward(&packet.view()) {
        Forwarding::Call { handler, method } => {
            assert!(Arc::ptr_eq(&handler, &object));
            assert_eq!(method, 71);
        }
        Forwarding::Deleted => panic!("nothing was to be deleted"),
    }
    assert_eq!(registry.len(), 3);

    let mut stack: PortStack<u8> = PortStack::new();
    assert_eq!(registry.forward_and_call(&mut stack, packet.view()), vec![10, 71, 5, 6]);
    assert_eq!(stack.depth(), 0);
    let initial = Packet::new_request(INITIAL_SERVICE_OBJECT_ID, 70, &[]);
    assert_eq!(registry.forward_and_call(&mut stack, initial.view()), vec![1, 70]);
}

#[test]
fn delete_frees_the_identifier_last_in_line() {
    let mut registry = registry(6);
    assert_eq!(registry.register_service_object(Arc::new(Tagged(10))), 2);
    assert_eq!(registry.register_service_object(Arc::new(Tagged(11))), 3);

    let delete = Packet::new_request(2, DELETE_REQUEST, &[]);
    let mut stack: PortStack<u8> = PortStack::new();
    assert_eq!(registry.forward_and_call(&mut stack, delete.view()), Vec::<u8>::new());
    assert!(!registry.contains(2));
    assert!(registry.contains(3));
    assert_eq!(registry.len(), 3);

    assert_eq!(registry.register_service_object(Arc::new(Tagged(12))), 4);
    assert_eq!(registry.register_service_object(Arc::new(Tagged(13))), 5);
    assert_eq!(registry.register_service_object(Arc::new(Tagged(14))), 2);
    assert!(registry.is_exhausted());

    let delete = Packet::new_request(4, DELETE_REQUEST, &[1, 2, 3]);
    assert!(matches!(registry.forward(&delete.view()), Forwarding::Deleted));
    assert!(!registry.is_exhausted());
}

#[test]
fn clear_drops_every_object_and_frees_nothing() {
    let mut registry = registry(4);
    let object = Arc::new(Tagged(10));
    assert_eq!(registry.register_service_object(Arc::clone(&object)), 2);
    assert_eq!(Arc::strong_count(&object), 2);
    registry.clear();
    assert_eq!(registry.len(), 0);
    assert_eq!(Arc::strong_count(&object), 1);
    assert!(!registry.contains(META_SERVICE_OBJECT_ID));
    assert_eq!(registry.register_service_object(object), 3);
    assert!(registry.is_exhausted());
}

#[test]
fn port_can_be_replaced() {
    let mut registry = registry(4);
    registry.set_port(7);
    assert_eq!(*registry.current_port(), 7);
    assert_eq!(registry.len(), 2);
}

#[test]
fn skeleton_clone_shares_the_object() {
    let skeleton = tagged(3);
    let other = skeleton.clone();
    assert!(Arc::ptr_eq(&skeleton.raw, &other.raw));
    assert_eq!(Arc::strong_count(&skeleton.raw), 2);
}
