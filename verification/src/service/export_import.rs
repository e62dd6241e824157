//! Skeletons and bare handles, for exchanging services by hand.

use crate::forwarder::ServiceObjectId;
use crate::forwarder::NULL_ID;
use crate::context::Context;
use crate::port::null_weak_port;
use crate::port::WeakPort;
use crate::service::handle::Handle;
use crate::service::Dispatch;
use crate::service::Service;
use std::sync::Arc;
use vstd::prelude::*;

verus! {

/// Calls `Arc::clone`: the new pointer shares the allocation of the one it was
/// cloned from, so the two are equal as values.
#[verifier::external_body]
pub(crate) fn clone_arc<T>(a: &Arc<T>) -> (res: Arc<T>)
    ensures
        res == *a,
{
    Arc::clone(a)
}

/// The form an object reference takes on the wire: nothing but the object's
/// identifier on the side that exported it.
#[derive(PartialEq, Eq, Structural, Debug, Clone, Copy)]
pub struct HandleToExchange(pub ServiceObjectId);

impl HandleToExchange {
    /// The handle that stands for no object at all.
    pub fn create_null() -> (handle: Self)
        ensures
            handle.0 == NULL_ID,
    {
        Self(NULL_ID)
    }
}

/// An exported object with its interface erased: all that is left is the
/// dispatcher. Cloning a skeleton gives another reference to the same object.
pub struct Skeleton<D: Dispatch> {
    pub raw: Arc<D>,
}

impl<D: Dispatch> Clone for Skeleton<D> {
    fn clone(&self) -> (other: Self)
        ensures
            other == *self,
    {
        Self { raw: clone_arc(&self.raw) }
    }
}

/// The skeleton around a dispatcher.
pub fn create_skeleton<D: Dispatch>(raw: Arc<D>) -> (skeleton: Skeleton<D>)
    ensures
        skeleton.raw == raw,
{
    Skeleton { raw }
}


impl<D: Dispatch> Skeleton<D> {
    /// Wraps a service object for export.
    pub fn new<T: ?Sized + Service, S: IntoSkeleton<T, D>>(service: S) -> (skeleton: Self)
        ensures
            S::into_skeleton.ensures((service,), skeleton),
    {
        service.into_skeleton()
    }
}

/// A service object that can be wrapped for export under the interface `T`.
pub trait IntoSkeleton<T: ?Sized + Service, D: Dispatch> {
    fn into_skeleton(self) -> Skeleton<D>;
}

/// An object that can stand in for a skeleton's object under the interface `T`
/// without going through a connection.
pub trait FromSkeleton<T: ?Sized + Service, D: Dispatch>: Sized {
    fn from_skeleton(skeleton: Skeleton<D>) -> Self;
}

/// A proxy of the interface `T` that can be made from a handle and the port
/// that the handle came in through.
pub trait ImportProxy<T: ?Sized + Service, P>: Sized {
    fn import_proxy(port: WeakPort<P>, handle: HandleToExchange) -> Self;
}

/// A bare handle is a proxy of every interface: it is what every proxy is
/// built around.
impl<T: ?Sized + Service, P> ImportProxy<T, P> for Handle<P> {
    fn import_proxy(port: WeakPort<P>, handle: HandleToExchange) -> Self
        returns
            (Handle { id: handle.0, port }),
    {
        Handle::new(handle, port)
    }
}

/// Registers `service` with the context and returns the handle to pass to the
/// other side.
pub fn export_service_into_handle<D: Dispatch, P: Clone>(
    context: &mut Context<D, P>,
    service: Skeleton<D>,
) -> (handle: HandleToExchange)
    requires
        old(context).wf(),
        old(context).is_open(),
        old(context).registry().free_ids().len() > 0,
    ensures
        final(context).wf(),
        final(context).is_open(),
        handle.0 == old(context).registry().free_ids()[0],
        !old(context).registry().objects().contains_key(handle.0),
        final(context).registry().objects() == old(context).registry().objects().insert(
            handle.0,
            service.raw,
        ),
        final(context).registry().free_ids() == old(context).registry().free_ids().drop_first(),
        final(context).same_but_registry(*old(context)),
{
    context.register_service(service.raw)
}

/// Makes a proxy for the object that the other side exported under `handle`.
pub fn import_service_from_handle<T: ?Sized + Service, D: Dispatch, P: Clone, I: ImportProxy<T, P>>(
    context: &Context<D, P>,
    handle: HandleToExchange,
) -> (proxy: I)
    ensures
        exists|port: P|
            cloned(context.weak_port(), port) && I::import_proxy.ensures((Some(port), handle), proxy),
{
    I::import_proxy(context.get_port(), handle)
}

/// Makes a proxy that stands for no object: calling it is an error, and
/// dropping it sends nothing.
pub fn import_null_proxy<T: ?Sized + Service, P, I: ImportProxy<T, P>>() -> (proxy: I)
    ensures
        I::import_proxy.ensures((None::<P>, HandleToExchange(NULL_ID)), proxy),
{
    I::import_proxy(null_weak_port(), HandleToExchange::create_null())
}

} // verus!
