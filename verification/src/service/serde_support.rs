//! How object references travel inside call payloads.
//!
//! While a payload is encoded or decoded, the port it belongs to is found on
//! a stack of ports: whoever starts the work pushes its port and pops it when
//! the work is done.

use crate::port::Port;
use crate::port::WeakPort;
use crate::service::export_import::clone_arc;
use crate::service::export_import::FromSkeleton;
use crate::service::export_import::HandleToExchange;
use crate::service::export_import::ImportProxy;
use crate::service::export_import::IntoSkeleton;
use crate::service::export_import::Skeleton;
use crate::service::handle::Handle;
use crate::service::Dispatch;
use crate::service::Service;
use std::marker::PhantomData;
use vstd::prelude::*;

verus! {

/// How many ports the stack may hold: a call made while a dispatcher runs
/// stacks a second port on the dispatcher's, and nothing nests deeper.
pub const PORT_STACK_LIMIT: usize = 2;

/// The ports that are current, innermost last.
pub struct PortStack<P> {
    ports: Vec<P>,
}

impl<P> View for PortStack<P> {
    type V = Seq<P>;

    closed spec fn view(&self) -> Seq<P> {
        self.ports@
    }
}

impl<P> PortStack<P> {
    /// The stack never holds more than `PORT_STACK_LIMIT` ports.
    pub open spec fn wf(&self) -> bool {
        self@.len() <= PORT_STACK_LIMIT
    }

    pub fn new() -> (stack: Self)
        ensures
            stack@ == Seq::<P>::empty(),
            stack.wf(),
    {
        Self { ports: Vec::new() }
    }

    pub fn depth(&self) -> (n: usize)
        ensures
            n == self@.len(),
    {
        self.ports.len()
    }
}

/// Makes `port` the current port.
pub fn set_port<P>(stack: &mut PortStack<P>, port: P)
    requires
        old(stack)@.len() < PORT_STACK_LIMIT,
    ensures
        final(stack)@ == old(stack)@.push(port),
        final(stack).wf(),
{
    stack.ports.push(port);
}

/// The current port.
pub fn get_port<P>(stack: &PortStack<P>) -> (port: &P)
    requires
        stack@.len() > 0,
    ensures
        *port == stack@.last(),
{
    &stack.ports[stack.ports.len() - 1]
}

/// Makes the port that was current before the last `set_port` current again.
pub fn remove_port<P>(stack: &mut PortStack<P>)
    requires
        old(stack)@.len() > 0,
    ensures
        final(stack)@ == old(stack)@.drop_last(),
        old(stack).wf() ==> final(stack).wf(),
{
    let _ = stack.ports.pop();
}

/// A port that was set and removed again leaves the stack as it was, and is
/// the current port in between.
pub proof fn lemma_set_then_remove<P>(before: Seq<P>, port: P)
    ensures
        before.push(port).last() == port,
        before.push(port).drop_last() == before,
{
    assert(before.push(port).drop_last() =~= before);
}


/// A service on its way out: still to be registered, or registered already.
pub enum ExportEntry<D: Dispatch> {
    ReadyToExport(Skeleton<D>),
    Exported(HandleToExchange),
}

/// A service object of the interface `T` that is exported when the value it
/// is part of is encoded. On the wire it is a bare handle.
pub struct ServiceToExport<T: ?Sized + Service, D: Dispatch> {
    service: ExportEntry<D>,
    _marker: PhantomData<T>,
}

impl<T: ?Sized + Service, D: Dispatch> ServiceToExport<T, D> {
    /// Whether the service has been registered, and under which handle.
    pub closed spec fn entry(&self) -> ExportEntry<D> {
        self.service
    }

    /// The export of a service object, which is registered when it is encoded.
    pub fn new<S: IntoSkeleton<T, D>>(service: S) -> (export: Self)
        ensures
            export.entry() matches ExportEntry::ReadyToExport(skeleton) && S::into_skeleton.ensures(
                (service,),
                skeleton,
            ),
    {
        Self { service: ExportEntry::ReadyToExport(service.into_skeleton()), _marker: PhantomData }
    }

    /// The export of a skeleton that is at hand.
    pub fn from_skeleton(skeleton: Skeleton<D>) -> (export: Self)
        ensures
            export.entry() == ExportEntry::ReadyToExport(skeleton),
    {
        Self { service: ExportEntry::ReadyToExport(skeleton), _marker: PhantomData }
    }

    /// Whether the service is still to be registered.
    pub fn is_ready_to_export(&self) -> (ready: bool)
        ensures
            ready == (self.entry() is ReadyToExport),
    {
        match &self.service {
            ExportEntry::ReadyToExport(_) => true,
            ExportEntry::Exported(_) => false,
        }
    }

    /// The skeleton of a service that has not been registered.
    pub fn get_raw_export(self) -> (skeleton: Skeleton<D>)
        requires
            self.entry() is ReadyToExport,
        ensures
            self.entry() == ExportEntry::ReadyToExport(skeleton),
    {
        match self.service {
            ExportEntry::ReadyToExport(s) => s,
            ExportEntry::Exported(_) => vstd::pervasive::unreached(),
        }
    }

    /// What is written in place of the service when it is encoded. The first
    /// time, the service is registered with the current port and the handle it
    /// got is kept; every later time gives that same handle and registers
    /// nothing, so a format that encodes a value twice writes one identifier.
    pub fn export<P: Port<Dispatcher = D>>(&mut self, stack: &PortStack<WeakPort<P>>) -> (handle:
        HandleToExchange)
        requires
            old(self).entry() is ReadyToExport ==> stack@.len() > 0 && stack@.last() is Some,
        ensures
            final(self).entry() == ExportEntry::<D>::Exported(handle),
            old(self).entry() matches ExportEntry::Exported(kept) ==> handle == kept,
            old(self).entry() matches ExportEntry::ReadyToExport(skeleton) ==> P::register_service.ensures(
                (&stack@.last()->0, skeleton.raw),
                handle,
            ),
    {
        let handle = match &self.service {
            ExportEntry::ReadyToExport(service) => {
                match get_port(stack) {
                    Some(port) => port.register_service(clone_arc(&service.raw)),
                    None => vstd::pervasive::unreached(),
                }
            },
            ExportEntry::Exported(handle) => *handle,
        };
        self.service = ExportEntry::Exported(handle);
        handle
    }
}

/// A service of the interface `T` that came in as part of a decoded value and
/// can be made into a proxy. On the wire it is a bare handle.
pub struct ServiceToImport<T: ?Sized + Service, P> {
    handle: HandleToExchange,
    port: WeakPort<P>,
    _marker: PhantomData<T>,
}

impl<T: ?Sized + Service, P> ServiceToImport<T, P> {
    /// The handle that came in.
    pub closed spec fn handle(&self) -> HandleToExchange {
        self.handle
    }

    /// The port that the handle came in through.
    pub closed spec fn port(&self) -> WeakPort<P> {
        self.port
    }

    /// Makes the proxy.
    pub fn into_proxy<I: ImportProxy<T, P>>(self) -> (proxy: I)
        ensures
            I::import_proxy.ensures((self.port(), self.handle()), proxy),
    {
        I::import_proxy(self.port, self.handle)
    }

    /// The bare handle that every proxy of this service is built around.
    pub fn into_handle(self) -> (handle: Handle<P>)
        ensures
            handle.id == self.handle().0,
            handle.port == self.port(),
    {
        Handle::new(self.handle, self.port)
    }

    /// Takes the service for one of the interface `U`. No interface is refused.
    pub fn cast_service<U: ?Sized + Service>(self) -> (result: Result<ServiceToImport<U, P>, ()>)
        ensures
            result matches Ok(cast) && cast.handle() == self.handle() && cast.port() == self.port(),
    {
        Ok(ServiceToImport { handle: self.handle, port: self.port, _marker: PhantomData })
    }

    /// Takes the service for one of the interface `U`, whatever `U` is.
    pub fn cast_service_without_compatibility_check<U: ?Sized + Service>(self) -> (cast:
        ServiceToImport<U, P>)
        ensures
            cast.handle() == self.handle(),
            cast.port() == self.port(),
    {
        ServiceToImport { handle: self.handle, port: self.port, _marker: PhantomData }
    }

    /// The import of a handle that came in through `port` by other means than a
    /// decoded value.
    pub fn from_raw_import(handle: HandleToExchange, port: WeakPort<P>) -> (import: Self)
        ensures
            import.handle() == handle,
            import.port() == port,
    {
        Self { handle, port, _marker: PhantomData }
    }

    /// What a handle read from the wire becomes when a value is decoded: the
    /// handle together with the current port.
    pub fn import(handle: HandleToExchange, stack: &PortStack<WeakPort<P>>) -> (import: Self) where
        P: Clone,

        requires
            stack@.len() > 0,
        ensures
            import.handle() == handle,
            import.port() is Some <==> stack@.last() is Some,
            stack@.last() matches Some(current) ==> cloned(current, import.port()->0),
    {
        let port = match get_port(stack) {
            Some(port) => Some(port.clone()),
            None => None,
        };
        ServiceToImport { handle, port, _marker: PhantomData }
    }
}

/// A service of the interface `T` that travels in either direction: exported
/// where it is encoded, imported where it is decoded.
pub enum ServiceRef<T: ?Sized + Service, D: Dispatch, P> {
    Export(ServiceToExport<T, D>),
    Import(ServiceToImport<T, P>),
}

impl<T: ?Sized + Service, D: Dispatch, P> ServiceRef<T, D, P> {
    /// A reference to a service object of this side, to be exported.
    pub fn create_export<S: IntoSkeleton<T, D>>(service: S) -> (service_ref: Self)
        ensures
            service_ref matches ServiceRef::Export(export) && (export.entry() matches ExportEntry::ReadyToExport(
                skeleton,
            ) && S::into_skeleton.ensures((service,), skeleton)),
    {
        ServiceRef::Export(ServiceToExport::new(service))
    }

    /// The import that this reference holds.
    pub fn unwrap_import(self) -> (import: ServiceToImport<T, P>)
        requires
            self is Import,
        ensures
            self == ServiceRef::<T, D, P>::Import(import),
    {
        match self {
            ServiceRef::Import(x) => x,
            ServiceRef::Export(_) => vstd::pervasive::unreached(),
        }
    }

    /// The object that this reference stands for: a proxy for an import, and
    /// for an export the object itself, which never left this side.
    pub fn into_object<I: ImportProxy<T, P> + FromSkeleton<T, D>>(self) -> (object: I)
        requires
            self matches ServiceRef::Export(export) ==> export.entry() is ReadyToExport,
        ensures
            self matches ServiceRef::Import(import) ==> I::import_proxy.ensures(
                (import.port(), import.handle()),
                object,
            ),
            self matches ServiceRef::Export(export) ==> I::from_skeleton.ensures(
                (export.entry()->ReadyToExport_0,),
                object,
            ),
    {
        match self {
            ServiceRef::Import(x) => x.into_proxy(),
            ServiceRef::Export(x) => I::from_skeleton(x.get_raw_export()),
        }
    }

    /// What is written in place of this reference when it is encoded. Only an
    /// export can be encoded.
    pub fn export<Q: Port<Dispatcher = D>>(&mut self, stack: &PortStack<WeakPort<Q>>) -> (handle:
        HandleToExchange)
        requires
            *old(self) matches ServiceRef::Export(export) && (export.entry() is ReadyToExport
                ==> stack@.len() > 0 && stack@.last() is Some),
        ensures
            *final(self) matches ServiceRef::Export(export) && export.entry() == ExportEntry::<
                D,
            >::Exported(handle),
            *old(self) matches ServiceRef::Export(export) && (export.entry() matches ExportEntry::Exported(
                kept,
            ) ==> handle == kept),
            *old(self) matches ServiceRef::Export(export) && (
            export.entry() matches ExportEntry::ReadyToExport(skeleton) ==> Q::register_service.ensures(
                (&stack@.last()->0, skeleton.raw),
                handle,
            )),
    {
        match self {
            ServiceRef::Export(x) => x.export(stack),
            ServiceRef::Import(_) => vstd::pervasive::unreached(),
        }
    }

    /// What a handle read from the wire becomes when a value is decoded.
    pub fn import(handle: HandleToExchange, stack: &PortStack<WeakPort<P>>) -> (service_ref: Self) where
        P: Clone,

        requires
            stack@.len() > 0,
        ensures
            service_ref matches ServiceRef::Import(import) && import.handle() == handle && (
            import.port() is Some <==> stack@.last() is Some) && (stack@.last() matches Some(current)
                ==> cloned(current, import.port()->0)),
    {
        ServiceRef::Import(ServiceToImport::import(handle, stack))
    }
}

} // verus!
