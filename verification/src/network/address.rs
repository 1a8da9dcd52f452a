//! Socket addresses as plain values.

use vstd::prelude::*;

verus! {

/// The address of a backend: an IP address and a port.
#[derive(Debug, Clone, Copy, PartialEq, Eq)]
pub enum SocketAddress {
    /// An IPv4 address, by its four octets.
    V4 { octets: [u8; 4], port: u16 },
    /// An IPv6 address, by its eight segments, with flow information and
    /// scope.
    V6 { segments: [u16; 8], port: u16, flowinfo: u32, scope_id: u32 },
}

impl SocketAddress {
    /// The port of the address.
    pub fn port(&self) -> (res: u16)
        ensures
            res == match *self {
                SocketAddress::V4 { port, .. } => port,
                SocketAddress::V6 { port, .. } => port,
            },
    {
        match self {
            SocketAddress::V4 { port, .. } => *port,
            SocketAddress::V6 { port, .. } => *port,
        }
    }
}

} // verus!
