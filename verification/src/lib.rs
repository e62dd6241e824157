//! A remote object framework: objects that implement a declared interface are
//! exported over a point-to-point connection and called through proxies on the
//! other side.
//!
//! This crate holds the protocol's logic as sequential state machines: the
//! packet layout, the registry of exported objects, the call slots that pair
//! responses with requests, the classification of inbound packets, the
//! exchange of object handles, and the life cycle of a connection end. Threads,
//! locks and transports drive these machines from outside.

pub mod context;
pub mod forwarder;
pub mod interface;
pub mod packet;
pub mod port;
pub mod queue;
pub mod service;
pub mod transport;

pub use context::Config;
pub use context::Context;
pub use service::id::setup_identifiers;
pub use service::serde_support::ServiceRef;
pub use service::serde_support::ServiceToExport;
pub use service::serde_support::ServiceToImport;
pub use service::Service;

/// Items for a raw exchange of services: skeletons and bare handles.
pub mod raw_exchange;
