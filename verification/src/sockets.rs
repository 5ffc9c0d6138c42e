//! Socket configuration policy: the options every relay socket is created
//! with, the platform-dependent bind address, and the multicast-group join
//! plan. The library decides the values; the process applies them to real
//! sockets outside the library.

use vstd::prelude::*;

use crate::addr::{Endpoint, Ip4, MDNS_PORT, spec_mdns_endpoint, mdns_endpoint, unspecified_ip};
use crate::snapshot::InterfaceEntry;

verus! {

/// Every relay socket blocks on receive at most this many seconds, so the
/// loop observes the shutdown flag at least that often.
pub const READ_TIMEOUT_SECS: u64 = 5;

/// The options a relay socket is configured with: a bounded receive
/// timeout, address reuse, and multicast loopback delivery (deliberate:
/// loop prevention is handled at the application layer, so the announcer's
/// own traffic must stay observable).
#[derive(Clone, Copy, Debug, PartialEq, Eq, Structural)]
pub struct SocketOptions {
    pub read_timeout_secs: u64,
    pub reuse_address: bool,
    pub multicast_loop: bool,
}

pub fn multicast_socket_options() -> (r: SocketOptions)
    ensures
        r.read_timeout_secs == READ_TIMEOUT_SECS,
        r.reuse_address,
        r.multicast_loop,
{
    SocketOptions { read_timeout_secs: READ_TIMEOUT_SECS, reuse_address: true, multicast_loop: true }
}

/// The two bind strategies. POSIX systems bind directly to the multicast
/// group address, so the kernel filters to group traffic; platforms that
/// forbid binding to a multicast address bind to the wildcard address.
#[derive(Clone, Copy, Debug, PartialEq, Eq, Structural)]
pub enum BindPolicy {
    ToGroup,
    ToWildcard,
}

/// The address a relay socket binds to under each strategy.
pub open spec fn spec_bind_endpoint(p: BindPolicy) -> Endpoint {
    match p {
        BindPolicy::ToGroup => spec_mdns_endpoint(),
        BindPolicy::ToWildcard => Endpoint {
            ip: Ip4 { a: 0, b: 0, c: 0, d: 0 },
            port: MDNS_PORT,
        },
    }
}

pub fn bind_endpoint(p: BindPolicy) -> (r: Endpoint)
    ensures
        r == spec_bind_endpoint(p),
{
    match p {
        BindPolicy::ToGroup => mdns_endpoint(),
        BindPolicy::ToWildcard => Endpoint { ip: unspecified_ip(), port: MDNS_PORT },
    }
}

/// The interface addresses a socket joins the group on: every snapshot
/// address, or the unspecified address (the system default interface) as a
/// degraded fallback when no configured interface resolved.
pub open spec fn spec_join_plan(snap: Seq<InterfaceEntry>) -> Seq<Ip4> {
    if snap.len() == 0 {
        seq![Ip4 { a: 0, b: 0, c: 0, d: 0 }]
    } else {
        snap.map_values(|e: InterfaceEntry| e.address)
    }
}

pub fn join_plan(snap: &Vec<InterfaceEntry>) -> (r: Vec<Ip4>)
    ensures
        r@ == spec_join_plan(snap@),
{
    let mut out: Vec<Ip4> = Vec::new();
    if snap.len() == 0 {
        out.push(unspecified_ip());
        proof {
            assert(out@ =~= spec_join_plan(snap@));
        }
        return out;
    }
    let ghost f = |e: InterfaceEntry| e.address;
    let mut i: usize = 0;
    while i < snap.len()
        invariant
            i <= snap@.len(),
            f == (|e: InterfaceEntry| e.address),
            out@ =~= snap@.subrange(0, i as int).map_values(f),
        decreases snap@.len() - i,
    {
        out.push(snap[i].address);
        proof {
            assert(out@ =~= snap@.subrange(0, i as int + 1).map_values(f));
        }
        i = i + 1;
    }
    proof {
        assert(snap@.subrange(0, snap@.len() as int) =~= snap@);
        assert(out@ =~= spec_join_plan(snap@));
    }
    out
}

} // verus!
