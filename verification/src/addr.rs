//! Plain-value address types the relay logic works on: an IPv4 address as its
//! four dotted-quad octets, and an endpoint (address plus UDP port).

use vstd::prelude::*;

verus! {

/// The standard mDNS UDP port.
pub const MDNS_PORT: u16 = 5353;

/// An IPv4 address, held as its four dotted-quad octets.
#[derive(Clone, Copy, Debug, Hash, PartialEq, Eq, Structural)]
pub struct Ip4 {
    pub a: u8,
    pub b: u8,
    pub c: u8,
    pub d: u8,
}

impl Ip4 {
    pub fn new(a: u8, b: u8, c: u8, d: u8) -> (r: Ip4)
        ensures
            r == (Ip4 { a, b, c, d }),
    {
        Ip4 { a, b, c, d }
    }

    /// An address in 127.0.0.0/8, the IPv4 loopback block.
    pub open spec fn spec_is_loopback(self) -> bool {
        self.a == 127
    }

    pub fn is_loopback(&self) -> (r: bool)
        ensures
            r == self.spec_is_loopback(),
    {
        self.a == 127
    }

    /// The unspecified address 0.0.0.0, used as the system-default join
    /// interface when no configured interface resolved.
    pub open spec fn spec_is_unspecified(self) -> bool {
        self.a == 0 && self.b == 0 && self.c == 0 && self.d == 0
    }
}

/// 0.0.0.0, the unspecified (wildcard) address.
pub fn unspecified_ip() -> (r: Ip4)
    ensures
        r == (Ip4 { a: 0u8, b: 0u8, c: 0u8, d: 0u8 }),
        r.spec_is_unspecified(),
{
    Ip4 { a: 0, b: 0, c: 0, d: 0 }
}

/// 224.0.0.251, the mDNS multicast group address.
pub open spec fn spec_mdns_group() -> Ip4 {
    Ip4 { a: 224, b: 0, c: 0, d: 251 }
}

pub fn mdns_group() -> (r: Ip4)
    ensures
        r == spec_mdns_group(),
{
    Ip4 { a: 224, b: 0, c: 0, d: 251 }
}

/// A socket address: an IPv4 address together with a UDP port.
#[derive(Clone, Copy, Debug, Hash, PartialEq, Eq, Structural)]
pub struct Endpoint {
    pub ip: Ip4,
    pub port: u16,
}

/// 224.0.0.251:5353, the group endpoint every relayed datagram is sent to.
pub open spec fn spec_mdns_endpoint() -> Endpoint {
    Endpoint { ip: spec_mdns_group(), port: MDNS_PORT }
}

pub fn mdns_endpoint() -> (r: Endpoint)
    ensures
        r == spec_mdns_endpoint(),
{
    Endpoint { ip: mdns_group(), port: MDNS_PORT }
}

} // verus!
