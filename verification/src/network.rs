//! Shared vocabulary of the data plane.

use vstd::prelude::*;

pub mod address;
pub mod backend;
pub mod clock;
pub mod readiness;
pub mod retry;

pub use self::address::SocketAddress;
pub use self::backend::{Backend, BackendProtocol, BackendStatus};
pub use self::readiness::RequiredEvents;

verus! {

/// Name of an application, as used in routing tables.
pub type AppId = String;

/// Protocol spoken on the listening side of a proxy.
#[derive(Debug, Clone, Copy, PartialEq, Eq, Structural)]
pub enum Protocol {
    HTTP,
    HTTPS,
    TCP,
}

/// What a session asks of the event loop after handling an event.
#[derive(Debug, PartialEq, Eq, Structural)]
pub enum ClientResult {
    CloseClient,
    CloseBackend,
    CloseBoth,
    Continue,
    ConnectBackend,
}

/// Why no backend connection could be handed to a session.
#[derive(Debug, PartialEq, Eq, Structural)]
pub enum ConnectionError {
    NoHostGiven,
    NoRequestLineGiven,
    HostNotFound,
    NoBackendAvailable,
    ToBeDefined,
}

/// Role of a socket registered with the event loop.
#[derive(Debug, PartialEq, Eq, Structural)]
pub enum SocketType {
    Listener,
    FrontClient,
    BackClient,
}

} // verus!
