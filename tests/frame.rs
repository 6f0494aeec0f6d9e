use etherparse::PacketBuilder;
use packet_sniffer::connection::{IpV, Transport};
use packet_sniffer::frame::{connection_of, decode_frame, FrameHeaders, IpAddresses, TransportPorts};
use packet_sniffer::text::decimal_text;
use packet_sniffer::time::Timestamp;

fn tcp_v4(src: [u8; 4], sport: u16, dst: [u8; 4], dport: u16) -> Vec<u8> {
    let builder = PacketBuilder::ethernet2([1, 2, 3, 4, 5, 6], [7, 8, 9, 10, 11, 12])
        .ipv4(src, dst, 20)
        .tcp(sport, dport, 1, 4096);
    let payload = [1u8, 2, 3];
    let mut out = Vec::with_capacity(builder.size(payload.len()));
    builder.write(&mut out, &payload).unwrap();
    out
}

#[test]
fn decodes_tcp_over_ipv4() {
    let bytes = tcp_v4([192, 168, 1, 10], 5000, [10, 0, 0, 255], 80);
    let ts = Timestamp::new(1_700_000_000, 250);
    let c = decode_frame(&bytes, ts, 100).unwrap();
    assert_eq!(c.l3, IpV::V4);
    assert_eq!(c.l4, Transport::TCP);
    assert_eq!(c.ip_1, "10.0.0.255");
    assert_eq!(c.port_1, "80");
    assert_eq!(c.ip_2, "192.168.1.10");
    assert_eq!(c.port_2, "5000");
    assert_eq!(c.ts_start, ts);
    assert_eq!(c.ts_end, ts);
    assert_eq!(c.bytes, 100);
}

#[test]
fn decodes_udp_over_ipv6() {
    let src = [0x20, 0x01, 0x0d, 0xb8, 0, 0, 0, 0, 0, 0, 0, 0, 0, 0, 0, 1];
    let dst = [0xfe, 0x80, 0, 0, 0, 0, 0, 0, 0x02, 0x1a, 0x2b, 0xff, 0xfe, 0x3c, 0x4d, 0x5e];
    let builder = PacketBuilder::ethernet2([1, 2, 3, 4, 5, 6], [7, 8, 9, 10, 11, 12])
        .ipv6(src, dst, 64)
        .udp(6000, 53);
    let mut bytes = Vec::new();
    builder.write(&mut bytes, &[9u8; 8]).unwrap();
    let c = decode_frame(&bytes, Timestamp::new(1, 0), 50).unwrap();
    assert_eq!(c.l3, IpV::V6);
    assert_eq!(c.l4, Transport::UDP);
    assert_eq!(c.ip_1, "fe80:0000:0000:0000:021a:2bff:fe3c:4d5e");
    assert_eq!(c.ip_2, "2001:0db8:0000:0000:0000:0000:0000:0001");
    assert_eq!(c.port_1, "53");
    assert_eq!(c.port_2, "6000");
}

#[test]
fn truncated_frame_is_skipped() {
    let bytes = tcp_v4([1, 2, 3, 4], 1, [5, 6, 7, 8], 2);
    assert!(decode_frame(&bytes[..10], Timestamp::new(0, 0), 10).is_none());
    assert!(decode_frame(&[], Timestamp::new(0, 0), 0).is_none());
}

#[test]
fn frame_without_transport_is_skipped() {
    let h = FrameHeaders { ip: Some(IpAddresses::V4([1, 1, 1, 1], [2, 2, 2, 2])), transport: None };
    assert!(connection_of(&h, Timestamp::new(0, 0), 1).is_none());
    let other = FrameHeaders {
        ip: Some(IpAddresses::V4([1, 1, 1, 1], [2, 2, 2, 2])),
        transport: Some(TransportPorts::Other),
    };
    assert!(connection_of(&other, Timestamp::new(0, 0), 1).is_none());
}

#[test]
fn frame_without_ip_is_skipped() {
    let h = FrameHeaders { ip: None, transport: Some(TransportPorts::Tcp(1, 2)) };
    assert!(connection_of(&h, Timestamp::new(0, 0), 1).is_none());
}

#[test]
fn record_of_decoded_headers() {
    let h = FrameHeaders {
        ip: Some(IpAddresses::V4([0, 0, 0, 0], [255, 255, 255, 255])),
        transport: Some(TransportPorts::Udp(65535, 0)),
    };
    let c = connection_of(&h, Timestamp::new(3, 4), 9).unwrap();
    assert_eq!(c.ip_1, "255.255.255.255");
    assert_eq!(c.ip_2, "0.0.0.0");
    assert_eq!(c.port_1, "0");
    assert_eq!(c.port_2, "65535");
    assert_eq!(c.l4, Transport::UDP);
}

#[test]
fn decimal_notation() {
    assert_eq!(decimal_text(0), "0");
    assert_eq!(decimal_text(7), "7");
    assert_eq!(decimal_text(10), "10");
    assert_eq!(decimal_text(65535), "65535");
    assert_eq!(decimal_text(u64::MAX), "18446744073709551615");
}
