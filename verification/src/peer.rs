//! The network address of a peer.

use vstd::prelude::*;

verus! {

/// The socket address of a peer: an IP address and a port and, for IPv6, the
/// flow information and the scope of the address. Two addresses are the same
/// peer when all of these agree.
#[derive(Clone, Copy, Debug, PartialEq, Eq, Structural, Hash)]
pub enum PeerAddr {
    /// An IPv4 address, its four octets in one number with the first octet
    /// highest, and a port.
    V4 { ipv4: u32, port: u16 },
    /// An IPv6 address, its sixteen octets in one number with the first octet
    /// highest, and a port, flow information and scope.
    V6 { ipv6: u128, port: u16, flowinfo: u32, scope_id: u32 },
}

} // verus!
