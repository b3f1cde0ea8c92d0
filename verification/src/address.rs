//! The address that the listener binds.

use vstd::prelude::*;

verus! {

/// An IPv4 socket address: the four parts of the host, and the port.
#[derive(Clone, Copy, Debug, PartialEq, Eq)]
pub struct SocketAddress {
    pub host: (u8, u8, u8, u8),
    pub port: u16,
}

/// The one address of this service: port 3000 on the loopback interface.
pub open spec fn fixed_listen_address() -> SocketAddress {
    SocketAddress { host: (127, 0, 0, 1), port: 3000 }
}

/// The address to bind. It is fixed: nothing in the environment of the
/// process changes it.
pub fn listen_address() -> (address: SocketAddress)
    ensures
        address == fixed_listen_address(),
{
    SocketAddress { host: (127, 0, 0, 1), port: 3000 }
}

} // verus!
