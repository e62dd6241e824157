use remote_trait_object::packet::Packet;
use remote_trait_object::packet::PacketView;
use remote_trait_object::port::Port;
use remote_trait_object::port::WeakPort;
use remote_trait_object::service::export_import::create_skeleton;
use remote_trait_object::service::export_import::HandleToExchange;
use remote_trait_object::service::export_import::ImportProxy;
use remote_trait_object::service::export_import::IntoSkeleton;
use remote_trait_object::service::export_import::Skeleton;
use remote_trait_object::service::handle::Handle;
use remote_trait_object::service::serde_support::remove_port;
use remote_trait_object::service::serde_support::set_port;
use remote_trait_object::service::serde_support::PortStack;
use remote_trait_object::service::serde_support::ServiceRef;
use remote_trait_object::service::serde_support::ServiceToExport;
use remote_trait_object::service::Dispatch;
use remote_trait_object::service::MethodId;
use remote_trait_object::service::Service;
use remote_trait_object::transport::TransportError;
use std::cell::Cell;
use std::cell::RefCell;
use std::collections::HashMap;
use std::rc::Rc;
use std::sync::Arc;

// A port that dispatches at once, within one process.

struct Dispatcher(Box<dyn Fn(MethodId, &[u8]) -> Vec<u8>>);

impl Dispatch for Dispatcher {
    fn dispatch_and_call(&self, method: MethodId, args: &[u8]) -> Vec<u8> {
        (self.0)(method, args)
    }
}

struct TestDispatchMap {
    last_id: u32,
    map: HashMap<u32, Arc<Dispatcher>>,
}

struct TestPort {
    dispatch_map: RefCell<TestDispatchMap>,
    stack: RefCell<PortStack<WeakPort<TestPortRef>>>,
}

#[derive(Clone)]
struct TestPortRef(Rc<TestPort>);

impl TestPortRef {
    fn new() -> Self {
        TestPortRef(Rc::new(TestPort {
            dispatch_map: RefCell::new(TestDispatchMap { last_id: 0, map: HashMap::new() }),
            stack: RefCell::new(PortStack::new()),
        }))
    }

    fn register_len(&self) -> usize {
        self.0.dispatch_map.borrow().map.len()
    }
}

impl Port for TestPortRef {
    type Dispatcher = Dispatcher;

    fn call(&self, packet: PacketView) -> Result<Packet, TransportError> {
        let object_id = packet.object_id();
        let dispatcher = Arc::clone(self.0.dispatch_map.borrow().map.get(&object_id).unwrap());
        set_port(&mut self.0.stack.borrow_mut(), Some(self.clone()));
        let response = dispatcher.dispatch_and_call(packet.method(), packet.data());
        remove_port(&mut self.0.stack.borrow_mut());
        let mut response_packet = Packet::new_response_from_request(packet);
        response_packet.append_data(&response);
        Ok(response_packet)
    }

    fn delete_request(&self, id: u32) {
        self.0.dispatch_map.borrow_mut().map.remove(&id);
    }

    fn register_service(&self, service_object: Arc<Dispatcher>) -> HandleToExchange {
        let mut dispatch_map = self.0.dispatch_map.borrow_mut();
        dispatch_map.last_id += 1;
        let id = dispatch_map.last_id;
        dispatch_map.map.insert(id, service_object);
        HandleToExchange(id)
    }
}

fn cbor<T: serde::Serialize>(value: &T) -> Vec<u8> {
    serde_cbor::to_vec(value).unwrap()
}

fn uncbor<T: serde::de::DeserializeOwned>(bytes: &[u8]) -> T {
    serde_cbor::from_slice(bytes).unwrap()
}

/// What every proxy does: a call with its port as the current one, and a delete request when
/// it is dropped.
struct Remote {
    handle: Option<Handle<TestPortRef>>,
}

impl Remote {
    fn call<R>(
        &self,
        method: MethodId,
        encode: impl FnOnce(&PortStack<WeakPort<TestPortRef>>) -> Vec<u8>,
        decode: impl FnOnce(&[u8], &PortStack<WeakPort<TestPortRef>>) -> R,
    ) -> R {
        let handle = self.handle.as_ref().unwrap();
        let port = handle.port.clone().unwrap();
        set_port(&mut port.0.stack.borrow_mut(), handle.port.clone());
        let args = encode(&port.0.stack.borrow());
        let response = port.call(handle.request(method, &args).view());
        let data = Handle::<TestPortRef>::response_data(response).unwrap();
        let result = decode(&data, &port.0.stack.borrow());
        remove_port(&mut port.0.stack.borrow_mut());
        result
    }
}

impl Drop for Remote {
    fn drop(&mut self) {
        if let Some(handle) = self.handle.take() {
            if handle.needs_delete() {
                handle.release();
            }
        }
    }
}

// The interfaces: their methods have the identifiers 70, 71, ... in the order of declaration.

trait A: Service {
    fn service_object_as_argument(&self, b: ServiceRef<dyn B, Dispatcher, TestPortRef>);
    fn service_object_as_return(&self) -> ServiceRef<dyn B, Dispatcher, TestPortRef>;
    fn recursive_service_object(&self) -> ServiceRef<dyn A, Dispatcher, TestPortRef>;
    fn get_recursion_count(&self) -> u32;
}

trait B: Service {
    fn inc(&self);
    fn get(&self) -> i32;
}

struct ARemote(Remote);

impl Service for ARemote {}

impl A for ARemote {
    fn service_object_as_argument(&self, mut b: ServiceRef<dyn B, Dispatcher, TestPortRef>) {
        self.0.call(70, |stack| cbor(&(b.export(stack).0,)), |data, _| uncbor(data))
    }

    fn service_object_as_return(&self) -> ServiceRef<dyn B, Dispatcher, TestPortRef> {
        self.0.call(71, |_| cbor(&()), |data, stack| ServiceRef::import(HandleToExchange(uncbor(data)), stack))
    }

    fn recursive_service_object(&self) -> ServiceRef<dyn A, Dispatcher, TestPortRef> {
        self.0.call(72, |_| cbor(&()), |data, stack| ServiceRef::import(HandleToExchange(uncbor(data)), stack))
    }

    fn get_recursion_count(&self) -> u32 {
        self.0.call(73, |_| cbor(&()), |data, _| uncbor(data))
    }
}

struct BRemote(Remote);

impl Service for BRemote {}

impl B for BRemote {
    fn inc(&self) {
        self.0.call(70, |_| cbor(&()), |data, _| uncbor(data))
    }

    fn get(&self) -> i32 {
        self.0.call(71, |_| cbor(&()), |data, _| uncbor(data))
    }
}

impl ImportProxy<dyn A, TestPortRef> for Rc<dyn A> {
    fn import_proxy(port: WeakPort<TestPortRef>, handle: HandleToExchange) -> Self {
        Rc::new(ARemote(Remote { handle: Some(Handle::new(handle, port)) }))
    }
}

impl ImportProxy<dyn B, TestPortRef> for Box<dyn B> {
    fn import_proxy(port: WeakPort<TestPortRef>, handle: HandleToExchange) -> Self {
        Box::new(BRemote(Remote { handle: Some(Handle::new(handle, port)) }))
    }
}

/// A service object together with the port that it is exported through.
struct Exported<T: ?Sized>(Box<T>, TestPortRef);

impl IntoSkeleton<dyn A, Dispatcher> for Exported<dyn A> {
    fn into_skeleton(self) -> Skeleton<Dispatcher> {
        let Exported(this, port) = self;
        create_skeleton(Arc::new(Dispatcher(Box::new(move |method, args| {
            let stack = port.0.stack.borrow();
            if method == 70 {
                let (b,): (u32,) = uncbor(args);
                let b = ServiceRef::import(HandleToExchange(b), &stack);
                drop(stack);
                cbor(&this.service_object_as_argument(b))
            } else if method == 71 {
                drop(stack);
                let mut b = this.service_object_as_return();
                cbor(&b.export(&port.0.stack.borrow()).0)
            } else if method == 72 {
                drop(stack);
                let mut a = this.recursive_service_object();
                cbor(&a.export(&port.0.stack.borrow()).0)
            } else if method == 73 {
                cbor(&this.get_recursion_count())
            } else {
                panic!("Invalid remote-trait-object call. Fatal Error.")
            }
        }))))
    }
}

impl IntoSkeleton<dyn B, Dispatcher> for Exported<dyn B> {
    fn into_skeleton(self) -> Skeleton<Dispatcher> {
        let Exported(this, _) = self;
        create_skeleton(Arc::new(Dispatcher(Box::new(move |method, _| {
            if method == 70 {
                cbor(&this.inc())
            } else if method == 71 {
                cbor(&this.get())
            } else {
                panic!("Invalid remote-trait-object call. Fatal Error.")
            }
        }))))
    }
}

struct SimpleA {
    recursion_count: u32,
    port: TestPortRef,
}

impl SimpleA {
    pub fn new(port: TestPortRef) -> Self {
        Self { recursion_count: 0, port }
    }

    pub fn with_recursion_count(recursion_count: u32, port: TestPortRef) -> Self {
        Self { recursion_count, port }
    }
}

impl A for SimpleA {
    fn service_object_as_argument(&self, b: ServiceRef<dyn B, Dispatcher, TestPortRef>) {
        let b: Box<dyn B> = b.unwrap_import().into_proxy();
        assert_eq!(0, b.get());
        b.inc();
        b.inc();
        b.inc();
        assert_eq!(3, b.get());
    }

    fn service_object_as_return(&self) -> ServiceRef<dyn B, Dispatcher, TestPortRef> {
        let b = Box::new(SimpleB::new()) as Box<dyn B>;
        ServiceRef::Export(ServiceToExport::new(Exported(b, self.port.clone())))
    }

    fn recursive_service_object(&self) -> ServiceRef<dyn A, Dispatcher, TestPortRef> {
        let a = Box::new(SimpleA::with_recursion_count(self.recursion_count + 1, self.port.clone())) as Box<dyn A>;
        ServiceRef::Export(ServiceToExport::new(Exported(a, self.port.clone())))
    }

    fn get_recursion_count(&self) -> u32 {
        self.recursion_count
    }
}

impl Service for SimpleA {}

struct SimpleB {
    count: Cell<i32>,
}

impl SimpleB {
    pub fn new() -> Self {
        Self { count: Cell::new(0) }
    }
}

impl Service for SimpleB {}

impl B for SimpleB {
    fn inc(&self) {
        self.count.set(self.count.get() + 1)
    }

    fn get(&self) -> i32 {
        self.count.get()
    }
}

fn create_proxy_a(port: TestPortRef) -> Rc<dyn A> {
    let a: Box<dyn A> = Box::new(SimpleA::new(port.clone()));
    let handle = port.register_service(Exported(a, port.clone()).into_skeleton().raw);
    ImportProxy::import_proxy(Some(port), handle)
}

#[test]
fn service_object_as_return() {
    let port = TestPortRef::new();
    let proxy_a = create_proxy_a(port.clone());

    let proxy_b: Box<dyn B> = proxy_a.service_object_as_return().unwrap_import().into_proxy();
    assert_eq!(proxy_b.get(), 0);
    proxy_b.inc();
    assert_eq!(proxy_b.get(), 1);
    proxy_b.inc();
    assert_eq!(proxy_b.get(), 2);

    drop(proxy_a);
    drop(proxy_b);
    assert_eq!(port.register_len(), 0);
    drop(port)
}

#[test]
fn service_object_as_argument() {
    let port = TestPortRef::new();
    let proxy_a = create_proxy_a(port.clone());

    let service_object_b = Box::new(SimpleB::new()) as Box<dyn B>;
    proxy_a.service_object_as_argument(ServiceRef::Export(ServiceToExport::new(Exported(
        service_object_b,
        port.clone(),
    ))));

    // The object that was passed is deleted again when the method is done with its proxy.
    assert_eq!(port.register_len(), 1);
    drop(proxy_a);
    assert_eq!(port.register_len(), 0);
    drop(port)
}

#[test]
fn recursive_service_object() {
    let port = TestPortRef::new();
    let mut proxy_a = create_proxy_a(port.clone());
    let mut proxy_as = Vec::new();
    proxy_as.push(Rc::clone(&proxy_a));

    for i in 0..10 {
        assert_eq!(proxy_a.get_recursion_count(), i);
        proxy_a = proxy_a.recursive_service_object().unwrap_import().into_proxy();
        proxy_as.push(Rc::clone(&proxy_a));
    }
    assert_eq!(proxy_a.get_recursion_count(), 10);

    let proxy_b: Box<dyn B> = proxy_a.service_object_as_return().unwrap_import().into_proxy();
    proxy_b.inc();
    assert_eq!(proxy_b.get(), 1);

    // proxy_a + proxy_b + recursive 10 proxy_a = 12
    assert_eq!(port.register_len(), 12);

    drop(proxy_as);
    drop(proxy_a);
    drop(proxy_b);
    assert_eq!(port.register_len(), 0);
    drop(port)
}

// An interface with borrowed parameters. In the argument tuple each of them is owned.

trait Service1: Service {
    fn f1(&self, a1: i32, a2: &i32, a3: &[i32], a4: (i32, i32), a5: &(i32, String)) -> i32;
    fn f2(&self, s1: &str, a2: &Option<i32>) -> (String, String);
}

struct MyObject {
    mul: i32,
}

impl Service for MyObject {}

impl Service1 for MyObject {
    fn f1(&self, a1: i32, a2: &i32, a3: &[i32], a4: (i32, i32), a5: &(i32, String)) -> i32 {
        let sum: i32 = a3.iter().sum();
        (a1 + *a2 + sum + a4.0 + a4.1 + a5.0 + a5.1.parse::<i32>().unwrap()) * self.mul
    }

    fn f2(&self, s1: &str, a2: &Option<i32>) -> (String, String) {
        if let Some(x) = a2.as_ref() {
            (format!("{}_{}_{}", s1, x, self.mul), "Bye".to_owned())
        } else {
            (format!("{}_{}_{}", s1, "None", self.mul), "ByeBye".to_owned())
        }
    }
}

impl IntoSkeleton<dyn Service1, Dispatcher> for Box<dyn Service1> {
    fn into_skeleton(self) -> Skeleton<Dispatcher> {
        create_skeleton(Arc::new(Dispatcher(Box::new(move |method, args| {
            if method == 70 {
                let (a1, a2, a3, a4, a5): (i32, i32, Vec<_>, (i32, i32), (i32, String)) = uncbor(args);
                cbor(&self.f1(a1, &a2, &a3, a4, &a5))
            } else if method == 71 {
                let (a1, a2): (String, Option<i32>) = uncbor(args);
                cbor(&self.f2(&a1, &a2))
            } else {
                panic!("Invalid remote-trait-object call. Fatal Error.")
            }
        }))))
    }
}

struct Service1Remote(Remote);

impl Service for Service1Remote {}

impl Service1 for Service1Remote {
    fn f1(&self, a1: i32, a2: &i32, a3: &[i32], a4: (i32, i32), a5: &(i32, String)) -> i32 {
        self.0.call(70, |_| cbor(&(a1, a2, a3, a4, a5)), |data, _| uncbor(data))
    }

    fn f2(&self, s1: &str, a2: &Option<i32>) -> (String, String) {
        self.0.call(71, |_| cbor(&(s1, a2)), |data, _| uncbor(data))
    }
}

impl ImportProxy<dyn Service1, TestPortRef> for Box<dyn Service1> {
    fn import_proxy(port: WeakPort<TestPortRef>, handle: HandleToExchange) -> Self {
        Box::new(Service1Remote(Remote { handle: Some(Handle::new(handle, port)) }))
    }
}

#[test]
fn macro1() {
    let port = TestPortRef::new();

    let object = Box::new(MyObject { mul: 4 }) as Box<dyn Service1>;
    let handle = port.register_service(object.into_skeleton().raw);
    let proxy = <Box<dyn Service1> as ImportProxy<dyn Service1, TestPortRef>>::import_proxy(Some(port.clone()), handle);

    assert_eq!(proxy.f1(1, &2, &[3, 4], (5, 6), &(7, "8".to_owned())), (1 + 2 + 3 + 4 + 5 + 6 + 7 + 8) * 4);
    assert_eq!(proxy.f2("Hello", &Some(123)), ("Hello_123_4".to_owned(), "Bye".to_owned()));
    assert_eq!(proxy.f2("Hello", &None), ("Hello_None_4".to_owned(), "ByeBye".to_owned()));
    drop(proxy);
    assert_eq!(port.register_len(), 0);
}

trait Hello: Service {
    fn f(&self, v: &[(i32, i32)]) -> i32;
}

struct SimpleHello;

impl Service for SimpleHello {}

impl Hello for SimpleHello {
    fn f(&self, v: &[(i32, i32)]) -> i32 {
        v.iter().map(|(x, y)| x + y).sum()
    }
}

impl IntoSkeleton<dyn Hello, Dispatcher> for Box<dyn Hello> {
    fn into_skeleton(self) -> Skeleton<Dispatcher> {
        create_skeleton(Arc::new(Dispatcher(Box::new(move |method, args| {
            if method == 70 {
                let (a1,): (Vec<_>,) = uncbor(args);
                cbor(&self.f(&a1))
            } else {
                panic!("Invalid remote-trait-object call. Fatal Error.")
            }
        }))))
    }
}

// The same interface as the importing side declares it, with references all the way down.
trait HelloWithRef: Service {
    fn f(&self, v: &[&(&i32, &i32)]) -> i32;
}

struct HelloWithRefRemote(Remote);

impl Service for HelloWithRefRemote {}

impl HelloWithRef for HelloWithRefRemote {
    fn f(&self, v: &[&(&i32, &i32)]) -> i32 {
        self.0.call(70, |_| cbor(&(v,)), |data, _| uncbor(data))
    }
}

impl ImportProxy<dyn HelloWithRef, TestPortRef> for Box<dyn HelloWithRef> {
    fn import_proxy(port: WeakPort<TestPortRef>, handle: HandleToExchange) -> Self {
        Box::new(HelloWithRefRemote(Remote { handle: Some(Handle::new(handle, port)) }))
    }
}

#[test]
fn macro_no_skeleton() {
    let port = TestPortRef::new();

    let object = Box::new(SimpleHello) as Box<dyn Hello>;

    let handle = port.register_service(object.into_skeleton().raw);
    let proxy =
        <Box<dyn HelloWithRef> as ImportProxy<dyn HelloWithRef, TestPortRef>>::import_proxy(Some(port.clone()), handle);

    let source = vec![1, 2, 3, 4];
    let source2 = vec![(&source[0], &source[1]), (&source[2], &source[3])];
    let source3 = vec![&source2[0], &source2[1]];

    assert_eq!(proxy.f(&source3), 10);
    drop(proxy);
    assert_eq!(port.register_len(), 0);
}
