//! The addresses servers listen on.

use vstd::prelude::*;

verus! {

/// A socket address: an IP address of either version and a port.
#[derive(Clone, Copy, Debug, PartialEq, Eq)]
pub enum SocketAddress {
    V4 { octets: [u8; 4], port: u16 },
    V6 { segments: [u16; 8], port: u16, flowinfo: u32, scope_id: u32 },
}

impl SocketAddress {
    /// The IPv4 loopback address, `127.0.0.1`, at a port.
    pub open spec fn spec_loopback(port: u16) -> SocketAddress {
        SocketAddress::V4 { octets: [127u8, 0u8, 0u8, 1u8], port }
    }

    pub fn loopback(port: u16) -> (a: SocketAddress)
        ensures
            a == SocketAddress::spec_loopback(port),
    {
        SocketAddress::V4 { octets: [127u8, 0u8, 0u8, 1u8], port }
    }
}

/// The address to listen on: the configured one, else the default.
pub fn listen_or(configured: Option<SocketAddress>, default: SocketAddress) -> (a: SocketAddress)
    ensures
        configured is Some ==> a == configured->Some_0,
        configured is None ==> a == default,
{
    match configured {
        Some(address) => address,
        None => default,
    }
}

} // verus!
