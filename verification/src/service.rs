//! What an exported object and its interface look like to the framework.

pub mod export_import;
pub mod handle;
pub mod id;
pub mod serde_support;

pub use handle::Handle;

use vstd::prelude::*;

verus! {

/// Identifier of a method within an interface.
pub type MethodId = u32;

/// The one operation the registry needs of an exported object: decode the
/// arguments, invoke the method, encode what it returned.
pub trait Dispatch {
    fn dispatch_and_call(&self, method: MethodId, args: &[u8]) -> Vec<u8>;
}

/// Marks a type as a service that can be exported.
pub trait Service {

}

} // verus!
