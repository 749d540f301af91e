//! Transport addresses and the rule that derives a datagram destination.

use vstd::prelude::*;

verus! {

/// The host part of a transport address.
#[derive(Clone, Copy, Debug, PartialEq, Eq, Structural)]
pub enum IpAddress {
    /// An IPv4 host, as its 32-bit big-endian number.
    V4(u32),
    /// An IPv6 host, as its 128-bit big-endian number.
    V6(u128),
}

/// A transport address: a host and a port.
///
/// The address a reliable connection was accepted from is the connection key
/// of a session; the address a datagram is sent to is derived from it with
/// [`udp_target`].
#[derive(Clone, Copy, Debug, PartialEq, Eq, Structural)]
pub struct Address {
    pub ip: IpAddress,
    pub port: u16,
}

impl Address {
    pub fn new(ip: IpAddress, port: u16) -> (a: Address)
        ensures
            a == (Address { ip, port }),
    {
        Address { ip, port }
    }
}

/// The datagram destination for a peer: the peer's host with the port the
/// targeted client announced.
pub open spec fn spec_udp_target(peer: Address, announced_port: u16) -> Address {
    Address { ip: peer.ip, port: announced_port }
}

/// Derives the datagram destination for a peer without touching `peer`.
#[verifier::when_used_as_spec(spec_udp_target)]
pub fn udp_target(peer: Address, announced_port: u16) -> (target: Address)
    ensures
        target == spec_udp_target(peer, announced_port),
{
    Address { ip: peer.ip, port: announced_port }
}

} // verus!
