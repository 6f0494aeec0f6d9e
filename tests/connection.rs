use packet_sniffer::connection::{Connection, IpV, Transport};
use packet_sniffer::time::Timestamp;

fn record(l4: u8, ip_1: &str, port_1: &str, ip_2: &str, port_2: &str, bytes: u64) -> Connection {
    let ts = Timestamp::new(1_700_000_000, 0);
    Connection::new(
        4,
        ip_1.to_string(),
        ip_2.to_string(),
        l4,
        port_1.to_string(),
        port_2.to_string(),
        ts,
        ts,
        bytes,
    )
}

#[test]
fn equality_ignores_direction() {
    let forward = record(0, "10.0.0.2", "80", "10.0.0.1", "1234", 10);
    let backward = record(0, "10.0.0.1", "1234", "10.0.0.2", "80", 20);
    assert!(forward == backward);
    assert!(backward == forward);
}

#[test]
fn equality_needs_same_transport() {
    let tcp = record(0, "10.0.0.2", "80", "10.0.0.1", "1234", 10);
    let udp = record(1, "10.0.0.2", "80", "10.0.0.1", "1234", 10);
    assert!(tcp != udp);
    let udp_swapped = record(1, "10.0.0.1", "1234", "10.0.0.2", "80", 10);
    assert!(tcp != udp_swapped);
}

#[test]
fn equality_needs_same_endpoints() {
    let a = record(0, "10.0.0.2", "80", "10.0.0.1", "1234", 10);
    let other_port = record(0, "10.0.0.2", "80", "10.0.0.1", "1235", 10);
    let crossed = record(0, "10.0.0.2", "1234", "10.0.0.1", "80", 10);
    assert!(a != other_port);
    assert!(a != crossed);
}

#[test]
fn new_maps_layer_codes() {
    let ts = Timestamp::new(5, 6);
    let c = Connection::new(
        4,
        "a".to_string(),
        "b".to_string(),
        1,
        "1".to_string(),
        "2".to_string(),
        ts,
        ts,
        7,
    );
    assert_eq!(c.l3, IpV::V4);
    assert_eq!(c.l4, Transport::UDP);
    assert_eq!(c.bytes, 7);
    let d = Connection::new(
        6,
        "a".to_string(),
        "b".to_string(),
        0,
        "1".to_string(),
        "2".to_string(),
        ts,
        ts,
        7,
    );
    assert_eq!(d.l3, IpV::V6);
    assert_eq!(d.l4, Transport::TCP);
    assert_eq!(IpV::V4.name(), "IPv4");
    assert_eq!(IpV::V6.name(), "IPv6");
    assert_eq!(Transport::TCP.name(), "TCP");
    assert_eq!(Transport::UDP.name(), "UDP");
}

#[test]
fn update_moves_end_and_adds_bytes() {
    let mut c = record(0, "10.0.0.2", "80", "10.0.0.1", "1234", 100);
    let later = Timestamp::new(1_700_000_009, 5);
    c.update(later, 250);
    assert_eq!(c.bytes, 350);
    assert_eq!(c.ts_end, later);
    assert_eq!(c.ts_start, Timestamp::new(1_700_000_000, 0));
    assert_eq!(c.ip_1, "10.0.0.2");
    assert_eq!(c.port_2, "1234");
}

#[test]
fn clone_keeps_every_field() {
    let c = record(1, "10.0.0.2", "53", "10.0.0.1", "6000", 42);
    let d = c.clone();
    assert_eq!(d.ip_1, c.ip_1);
    assert_eq!(d.ip_2, c.ip_2);
    assert_eq!(d.port_1, c.port_1);
    assert_eq!(d.port_2, c.port_2);
    assert_eq!(d.l4, c.l4);
    assert_eq!(d.bytes, 42);
}
