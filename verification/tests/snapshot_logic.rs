use mdns_repeater::addr::Ip4;
use mdns_repeater::snapshot::{
    get_all_interface_list, name_in_list, non_loopback_names, raw_is_loopback, resolve,
    resolve_snapshot, RawInterface, RawIp,
};

fn ip(a: u8, b: u8, c: u8, d: u8) -> Ip4 {
    Ip4 { a, b, c, d }
}

fn raw_v4(name: &str, address: Ip4) -> RawInterface {
    RawInterface {
        name: name.to_string(),
        address: RawIp::V4(address),
    }
}

fn raw_v6(name: &str, octets: [u8; 16]) -> RawInterface {
    RawInterface {
        name: name.to_string(),
        address: RawIp::V6(octets.to_vec()),
    }
}

fn v6_loopback_octets() -> [u8; 16] {
    let mut o = [0u8; 16];
    o[15] = 1;
    o
}

#[test]
fn loopback_detection() {
    assert!(raw_is_loopback(&RawIp::V4(ip(127, 0, 0, 1))));
    assert!(raw_is_loopback(&RawIp::V4(ip(127, 5, 5, 5))));
    assert!(!raw_is_loopback(&RawIp::V4(ip(10, 0, 0, 1))));
    assert!(raw_is_loopback(&RawIp::V6(v6_loopback_octets().to_vec())));
    let mut fe80 = [0u8; 16];
    fe80[0] = 0xfe;
    fe80[1] = 0x80;
    fe80[15] = 1;
    assert!(!raw_is_loopback(&RawIp::V6(fe80.to_vec())));
    assert!(!raw_is_loopback(&RawIp::V6(vec![0u8; 16])));
}

#[test]
fn name_lookup() {
    let names = vec!["eth0".to_string(), "eth1".to_string()];
    assert!(name_in_list(&names, &"eth0".to_string()));
    assert!(name_in_list(&names, &"eth1".to_string()));
    assert!(!name_in_list(&names, &"eth2".to_string()));
    assert!(!name_in_list(&Vec::new(), &"eth0".to_string()));
}

#[test]
fn snapshot_keeps_exactly_the_configured_ipv4_interfaces_in_order() {
    let raw = vec![
        raw_v4("lo", ip(127, 0, 0, 1)),
        raw_v4("eth0", ip(10, 0, 0, 1)),
        raw_v6("eth0", v6_loopback_octets()),
        raw_v4("eth1", ip(10, 0, 1, 1)),
        raw_v4("wlan0", ip(192, 168, 1, 7)),
    ];
    let configured = vec!["eth1".to_string(), "eth0".to_string(), "lo".to_string()];
    let snap = resolve_snapshot(&raw, &configured);
    assert_eq!(snap.len(), 2);
    assert_eq!(snap[0].name, "eth0");
    assert_eq!(snap[0].address, ip(10, 0, 0, 1));
    assert_eq!(snap[1].name, "eth1");
    assert_eq!(snap[1].address, ip(10, 0, 1, 1));
}

#[test]
fn snapshot_is_empty_when_nothing_is_configured() {
    let raw = vec![raw_v4("eth0", ip(10, 0, 0, 1))];
    let snap = resolve_snapshot(&raw, &Vec::new());
    assert!(snap.is_empty());
}

#[test]
fn snapshot_drops_ipv6_records_even_when_configured() {
    let mut global = [0u8; 16];
    global[0] = 0x20;
    global[15] = 9;
    let raw = vec![raw_v6("eth0", global)];
    let configured = vec!["eth0".to_string()];
    assert!(resolve_snapshot(&raw, &configured).is_empty());
}

#[test]
fn interface_listing_skips_loopback_but_keeps_every_record() {
    let raw = vec![
        raw_v4("lo", ip(127, 0, 0, 1)),
        raw_v6("lo", v6_loopback_octets()),
        raw_v4("eth0", ip(10, 0, 0, 1)),
        raw_v6("eth0", [0x20, 0, 0, 0, 0, 0, 0, 0, 0, 0, 0, 0, 0, 0, 0, 9]),
        raw_v4("eth1", ip(10, 0, 1, 1)),
    ];
    let names = non_loopback_names(&raw);
    assert_eq!(names, vec!["eth0".to_string(), "eth0".to_string(), "eth1".to_string()]);
}

#[test]
fn host_resolution_honours_the_allow_list() {
    // Whatever interfaces this machine has, none can match an empty
    // allow-list, and the listing query itself must succeed.
    let snap = resolve(&Vec::new()).expect("interface enumeration failed");
    assert!(snap.is_empty());
    assert!(get_all_interface_list().is_ok());
}
