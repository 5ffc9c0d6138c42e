//! The interface snapshot: a one-time resolution of which local (name, IPv4)
//! pairs are eligible for relaying, computed by intersecting the OS-reported
//! non-loopback interfaces with the configured interface-name allow-list.

use vstd::prelude::*;

use crate::addr::Ip4;

verus! {

/// The address the OS reports for one interface record: either an IPv4
/// address, or an IPv6 address carried as its sixteen octets. The relay only
/// handles IPv4; IPv6 records are dropped when the snapshot is resolved.
#[derive(Clone, Debug)]
pub enum RawIp {
    V4(Ip4),
    V6(Vec<u8>),
}

/// One interface record as the OS reports it: the interface name and one of
/// its addresses. An interface with several addresses yields several records.
#[derive(Clone, Debug)]
pub struct RawInterface {
    pub name: String,
    pub address: RawIp,
}

/// One relay-eligible interface: a configured name with its IPv4 address.
/// Immutable for the process lifetime once the snapshot is computed.
#[derive(Clone, Debug)]
pub struct InterfaceEntry {
    pub name: String,
    pub address: Ip4,
}

/// The OS interface enumeration failed, or the configuration is unusable.
#[derive(Clone, Copy, Debug, PartialEq, Eq, Structural)]
pub struct ConfigurationError;

/// The sixteen-octet IPv6 loopback address ::1.
pub open spec fn spec_v6_loopback(o: Seq<u8>) -> bool {
    o.len() == 16 && (forall|i: int| 0 <= i < 15 ==> o[i] == 0) && o[15] == 1
}

/// Whether a reported address is a loopback address: 127.0.0.0/8 for IPv4,
/// ::1 for IPv6.
pub open spec fn spec_raw_is_loopback(a: RawIp) -> bool {
    match a {
        RawIp::V4(ip) => ip.spec_is_loopback(),
        RawIp::V6(o) => spec_v6_loopback(o@),
    }
}

pub fn raw_is_loopback(a: &RawIp) -> (r: bool)
    ensures
        r == spec_raw_is_loopback(*a),
{
    match a {
        RawIp::V4(ip) => ip.is_loopback(),
        RawIp::V6(o) => {
            if o.len() != 16 {
                return false;
            }
            let mut i: usize = 0;
            while i < 15
                invariant
                    i <= 15,
                    o@.len() == 16,
                    spec_raw_is_loopback(*a) == spec_v6_loopback(o@),
                    forall|k: int| 0 <= k < i ==> o@[k] == 0,
                decreases 15 - i,
            {
                if o[i] != 0 {
                    proof {
                        assert(o@[i as int] != 0);
                        assert(!spec_v6_loopback(o@));
                    }
                    return false;
                }
                i = i + 1;
            }
            o[15] == 1
        },
    }
}

/// Whether `n` appears among the configured interface names.
pub open spec fn spec_name_in(names: Seq<String>, n: Seq<char>) -> bool {
    exists|i: int| 0 <= i < names.len() && names[i]@ == n
}

pub fn name_in_list(names: &Vec<String>, n: &String) -> (r: bool)
    ensures
        r == spec_name_in(names@, n@),
{
    let mut i: usize = 0;
    while i < names.len()
        invariant
            i <= names@.len(),
            forall|k: int| 0 <= k < i ==> names@[k]@ != n@,
        decreases names@.len() - i,
    {
        if names[i] == *n {
            assert(names@[i as int]@ == n@);
            return true;
        }
        i = i + 1;
    }
    false
}

/// The snapshot entry a raw record contributes, if any: the record must
/// carry an IPv4 address, the address must not be loopback, and the name
/// must appear in the configured allow-list.
pub open spec fn spec_eligible_entry(it: RawInterface, cfg: Seq<String>) -> Option<InterfaceEntry> {
    match it.address {
        RawIp::V4(ip) => if !ip.spec_is_loopback() && spec_name_in(cfg, it.name@) {
            Some(InterfaceEntry { name: it.name, address: ip })
        } else {
            None
        },
        RawIp::V6(_) => None,
    }
}

/// The interface snapshot: exactly the subset of the reported records that
/// are eligible under `cfg`, in the order the OS reported them.
pub open spec fn spec_snapshot(raw: Seq<RawInterface>, cfg: Seq<String>) -> Seq<InterfaceEntry> {
    raw.filter_map(|it: RawInterface| spec_eligible_entry(it, cfg))
}

/// Computes the interface snapshot from the reported records and the
/// configured allow-list: keeps exactly the non-loopback IPv4 records whose
/// name is configured, in the reported (stable) order.
pub fn resolve_snapshot(raw: &Vec<RawInterface>, configured: &Vec<String>) -> (r: Vec<
    InterfaceEntry,
>)
    ensures
        r@ == spec_snapshot(raw@, configured@),
{
    let ghost f = |it: RawInterface| spec_eligible_entry(it, configured@);
    let mut out: Vec<InterfaceEntry> = Vec::new();
    let mut i: usize = 0;
    while i < raw.len()
        invariant
            i <= raw@.len(),
            f == (|it: RawInterface| spec_eligible_entry(it, configured@)),
            out@ == raw@.subrange(0, i as int).filter_map(f),
        decreases raw@.len() - i,
    {
        let it = &raw[i];
        proof {
            assert(raw@.subrange(0, i as int + 1).drop_last() =~= raw@.subrange(0, i as int));
            assert(raw@.subrange(0, i as int + 1).last() == raw@[i as int]);
        }
        match &it.address {
            RawIp::V4(ip) => {
                if !ip.is_loopback() && name_in_list(configured, &it.name) {
                    out.push(InterfaceEntry { name: it.name.clone(), address: *ip });
                    proof {
                        assert(f(raw@[i as int]) == Some(
                            InterfaceEntry { name: it.name, address: *ip },
                        ));
                        assert(out@ =~= raw@.subrange(0, i as int).filter_map(f) + seq![
                            InterfaceEntry { name: it.name, address: *ip },
                        ]);
                    }
                } else {
                    proof {
                        assert(f(raw@[i as int]) is None);
                    }
                }
            },
            RawIp::V6(_) => {
                proof {
                    assert(f(raw@[i as int]) is None);
                }
            },
        }
        i = i + 1;
    }
    proof {
        assert(raw@.subrange(0, raw@.len() as int) =~= raw@);
    }
    out
}

/// Every entry of the snapshot is non-loopback and bears a configured name.
pub proof fn lemma_snapshot_entries_eligible(raw: Seq<RawInterface>, cfg: Seq<String>)
    ensures
        forall|i: int|
            0 <= i < spec_snapshot(raw, cfg).len() ==> {
                &&& !(#[trigger] spec_snapshot(raw, cfg)[i]).address.spec_is_loopback()
                &&& spec_name_in(cfg, spec_snapshot(raw, cfg)[i].name@)
            },
    decreases raw.len(),
{
    let f = |it: RawInterface| spec_eligible_entry(it, cfg);
    if raw.len() > 0 {
        lemma_snapshot_entries_eligible(raw.drop_last(), cfg);
        assert(spec_snapshot(raw, cfg) == if f(raw.last()) is Some {
            spec_snapshot(raw.drop_last(), cfg) + seq![f(raw.last())->Some_0]
        } else {
            spec_snapshot(raw.drop_last(), cfg)
        });
    }
}

/// Every eligible record contributes its entry to the snapshot: a
/// non-loopback IPv4 record with a configured name is never dropped.
pub proof fn lemma_snapshot_complete(raw: Seq<RawInterface>, cfg: Seq<String>, j: int)
    requires
        0 <= j < raw.len(),
        spec_eligible_entry(raw[j], cfg) is Some,
    ensures
        spec_snapshot(raw, cfg).contains(spec_eligible_entry(raw[j], cfg)->Some_0),
    decreases raw.len(),
{
    let f = |it: RawInterface| spec_eligible_entry(it, cfg);
    let e = f(raw[j])->Some_0;
    let sub = spec_snapshot(raw.drop_last(), cfg);
    assert(spec_snapshot(raw, cfg) == if f(raw.last()) is Some {
        sub + seq![f(raw.last())->Some_0]
    } else {
        sub
    });
    if j == raw.len() - 1 {
        let s = spec_snapshot(raw, cfg);
        assert(s[s.len() - 1] == e);
    } else {
        assert(raw.drop_last()[j] == raw[j]);
        lemma_snapshot_complete(raw.drop_last(), cfg, j);
        let i = choose|i: int| 0 <= i < sub.len() && sub[i] == e;
        assert(spec_snapshot(raw, cfg)[i] == e);
    }
}

/// The names of all reported non-loopback interfaces, in reported order:
/// what the "list interfaces" mode prints.
pub open spec fn spec_non_loopback_names(raw: Seq<RawInterface>) -> Seq<String> {
    raw.filter_map(
        |it: RawInterface|
            if !spec_raw_is_loopback(it.address) {
                Some(it.name)
            } else {
                None
            },
    )
}

pub fn non_loopback_names(raw: &Vec<RawInterface>) -> (r: Vec<String>)
    ensures
        r@ == spec_non_loopback_names(raw@),
{
    let ghost f = |it: RawInterface|
        if !spec_raw_is_loopback(it.address) {
            Some(it.name)
        } else {
            None
        };
    let mut out: Vec<String> = Vec::new();
    let mut i: usize = 0;
    while i < raw.len()
        invariant
            i <= raw@.len(),
            f == (|it: RawInterface|
                if !spec_raw_is_loopback(it.address) {
                    Some(it.name)
                } else {
                    None
                }),
            out@ == raw@.subrange(0, i as int).filter_map(f),
        decreases raw@.len() - i,
    {
        let it = &raw[i];
        proof {
            assert(raw@.subrange(0, i as int + 1).drop_last() =~= raw@.subrange(0, i as int));
            assert(raw@.subrange(0, i as int + 1).last() == raw@[i as int]);
        }
        if !raw_is_loopback(&it.address) {
            out.push(it.name.clone());
            proof {
                assert(out@ =~= raw@.subrange(0, i as int).filter_map(f) + seq![it.name]);
            }
        } else {
            proof {
                assert(f(raw@[i as int]) is None);
            }
        }
        i = i + 1;
    }
    proof {
        assert(raw@.subrange(0, raw@.len() as int) =~= raw@);
    }
    out
}

/// Relies on if_addrs2::get_if_addrs: enumerates the host's network
/// interfaces as (name, address) records. The result depends on the
/// machine's state, so nothing is promised of its contents.
#[verifier::external_body]
fn query_host_interfaces() -> (r: Result<Vec<RawInterface>, ConfigurationError>) {
    let list = match if_addrs2::get_if_addrs() {
        Ok(list) => list,
        Err(_) => return Err(ConfigurationError),
    };
    Ok(list.into_iter().map(|it| RawInterface {
        name: it.name,
        address: match it.addr {
            if_addrs2::IfAddr::V4(a) => {
                let o = a.ip.octets();
                RawIp::V4(Ip4 { a: o[0], b: o[1], c: o[2], d: o[3] })
            },
            if_addrs2::IfAddr::V6(a) => RawIp::V6(a.ip.octets().to_vec()),
        },
    }).collect())
}

/// Resolves the interface snapshot against the host's own interfaces.
/// Whatever the OS reports, every entry of a successful result is a
/// non-loopback IPv4 interface whose name is configured.
pub fn resolve(configured: &Vec<String>) -> (r: Result<Vec<InterfaceEntry>, ConfigurationError>)
    ensures
        r matches Ok(snap) ==> forall|i: int|
            0 <= i < snap@.len() ==> {
                &&& !(#[trigger] snap@[i]).address.spec_is_loopback()
                &&& spec_name_in(configured@, snap@[i].name@)
            },
{
    match query_host_interfaces() {
        Err(e) => Err(e),
        Ok(raw) => {
            let snap = resolve_snapshot(&raw, configured);
            proof {
                lemma_snapshot_entries_eligible(raw@, configured@);
            }
            Ok(snap)
        },
    }
}

/// The names of all of the host's non-loopback interfaces, for the
/// "list interfaces" mode. The contents depend on the machine's state.
pub fn get_all_interface_list() -> (r: Result<Vec<String>, ConfigurationError>) {
    match query_host_interfaces() {
        Err(e) => Err(e),
        Ok(raw) => Ok(non_loopback_names(&raw)),
    }
}

} // verus!
