//! What the framework asks of a transport.
//!
//! A transport carries opaque byte packets in both directions. It keeps the
//! packets of each direction in order, and neither duplicates nor drops one
//! while its terminators are quiet.

pub mod multiplex;

use vstd::prelude::*;

verus! {

/// How a `send` or a `recv` can fail.
#[derive(Clone, Copy, Debug, PartialEq, Eq, Structural)]
pub enum TransportError {
    /// The operation did not finish within its timeout.
    TimeOut,
    /// A terminator of this half was fired.
    Termination,
    /// Any other failure, passed on as it is.
    Custom,
}

/// A switch that ends every `send` or `recv`, running or yet to come, on the
/// half it was made from. It can be fired from another thread.
pub trait Terminate {
    fn terminate(&self);
}

/// The sending half of a transport.
pub trait TransportSend {
    type Terminator: Terminate;

    /// Sends a packet. `None` waits without limit.
    fn send(&self, data: &[u8], timeout: Option<std::time::Duration>) -> Result<(), TransportError>;

    fn create_terminator(&self) -> Self::Terminator;
}

/// The receiving half of a transport.
pub trait TransportRecv {
    type Terminator: Terminate;

    /// Receives a packet. `None` waits without limit.
    fn recv(&self, timeout: Option<std::time::Duration>) -> Result<Vec<u8>, TransportError>;

    fn create_terminator(&self) -> Self::Terminator;
}

} // verus!
