use etherparse::{IpHeader, PacketHeaders, TransportHeader};
use vstd::prelude::*;

use crate::connection::{Connection, ConnectionView, IpV, Transport};
use crate::text::{decimal, decimal_text, hex_byte};
use crate::time::Timestamp;

verus! {

/// Network-layer addresses of a frame: (source, destination).
#[derive(Clone, Copy, Debug)]
pub enum IpAddresses {
    V4([u8; 4], [u8; 4]),
    V6([u8; 16], [u8; 16]),
}

/// Transport-layer ports of a frame: (source, destination). `Other` is a
/// transport header that is neither TCP nor UDP.
#[derive(Clone, Copy, Debug)]
pub enum TransportPorts {
    Tcp(u16, u16),
    Udp(u16, u16),
    Other,
}

/// The headers of a frame that connection tracking reads.
#[derive(Clone, Copy, Debug)]
pub struct FrameHeaders {
    pub ip: Option<IpAddresses>,
    pub transport: Option<TransportPorts>,
}

/// What etherparse decodes from the bytes of an Ethernet II frame, or `None`
/// when it rejects them.
pub uninterp spec fn ethernet_headers(frame: Seq<u8>) -> Option<FrameHeaders>;

/// Relies on etherparse's `PacketHeaders::from_ethernet_slice`: it decodes
/// the link, VLAN, IP and transport headers from the bytes alone. Its
/// error becomes `None`; of its headers the IP addresses and the ports are
/// kept.
#[verifier::external_body]
fn decode_ethernet(frame: &[u8]) -> (r: Option<FrameHeaders>)
    ensures
        r == ethernet_headers(frame@),
{
    let h = PacketHeaders::from_ethernet_slice(frame).ok()?;
    let ip = match h.ip {
        Some(IpHeader::Version4(v, _)) => Some(IpAddresses::V4(v.source, v.destination)),
        Some(IpHeader::Version6(v, _)) => Some(IpAddresses::V6(v.source, v.destination)),
        None => None,
    };
    let transport = match h.transport {
        Some(TransportHeader::Tcp(t)) => Some(TransportPorts::Tcp(t.source_port, t.destination_port)),
        Some(TransportHeader::Udp(u)) => Some(TransportPorts::Udp(u.source_port, u.destination_port)),
        Some(_) => Some(TransportPorts::Other),
        None => None,
    };
    Some(FrameHeaders { ip, transport })
}

/// Dotted-decimal notation of four address bytes.
pub open spec fn ipv4_notation(a: Seq<u8>) -> Seq<char> {
    decimal(a[0] as nat) + seq!['.'] + decimal(a[1] as nat) + seq!['.'] + decimal(a[2] as nat)
        + seq!['.'] + decimal(a[3] as nat)
}

/// Two bytes of an IPv6 address as four lower-case hexadecimal digits.
pub open spec fn ipv6_group(a: Seq<u8>, g: int) -> Seq<char> {
    hex_byte(a[2 * g]) + hex_byte(a[2 * g + 1])
}

/// Eight colon-separated groups of four hexadecimal digits, leading zeros
/// kept.
pub open spec fn ipv6_notation(a: Seq<u8>) -> Seq<char> {
    ipv6_group(a, 0) + seq![':'] + ipv6_group(a, 1) + seq![':'] + ipv6_group(a, 2) + seq![':']
        + ipv6_group(a, 3) + seq![':'] + ipv6_group(a, 4) + seq![':'] + ipv6_group(a, 5) + seq![
        ':',
    ] + ipv6_group(a, 6) + seq![':'] + ipv6_group(a, 7)
}

/// Relies on sprintf's `vsprintf` with `%d.%d.%d.%d`: four `u8` arguments
/// match the four conversions, so it succeeds, and `%d` writes each in
/// decimal without padding.
#[verifier::external_body]
fn ipv4_text(a: &[u8; 4]) -> (r: Option<String>)
    ensures
        (r is Some),
        r->0@ == ipv4_notation(a@),
{
    sprintf::vsprintf("%d.%d.%d.%d", &[&a[0], &a[1], &a[2], &a[3]]).ok()
}

/// Relies on sprintf's `vsprintf` with eight colon-separated `%02x%02x`
/// groups: sixteen `u8` arguments match the sixteen conversions, so it
/// succeeds, and `%02x` writes each as two lower-case hexadecimal digits.
#[verifier::external_body]
fn ipv6_text(a: &[u8; 16]) -> (r: Option<String>)
    ensures
        (r is Some),
        r->0@ == ipv6_notation(a@),
{
    sprintf::vsprintf(
        "%02x%02x:%02x%02x:%02x%02x:%02x%02x:%02x%02x:%02x%02x:%02x%02x:%02x%02x",
        &[
            &a[0], &a[1], &a[2], &a[3], &a[4], &a[5], &a[6], &a[7],
            &a[8], &a[9], &a[10], &a[11], &a[12], &a[13], &a[14], &a[15],
        ],
    ).ok()
}

impl IpAddresses {
    pub open spec fn version(self) -> IpV {
        match self {
            IpAddresses::V4(_, _) => IpV::V4,
            IpAddresses::V6(_, _) => IpV::V6,
        }
    }

    pub open spec fn source_text(self) -> Seq<char> {
        match self {
            IpAddresses::V4(s, _) => ipv4_notation(s@),
            IpAddresses::V6(s, _) => ipv6_notation(s@),
        }
    }

    pub open spec fn destination_text(self) -> Seq<char> {
        match self {
            IpAddresses::V4(_, d) => ipv4_notation(d@),
            IpAddresses::V6(_, d) => ipv6_notation(d@),
        }
    }
}

/// The record of a single frame with headers `h`, captured at `ts` with
/// `len` bytes: endpoint A is the destination, endpoint B the source. A
/// frame without an IP header, or without a TCP or UDP header, has none.
pub open spec fn frame_record(h: FrameHeaders, ts: Timestamp, len: u64) -> Option<ConnectionView> {
    match (h.ip, h.transport) {
        (Some(ip), Some(TransportPorts::Tcp(sp, dp))) => Some(
            ConnectionView {
                l3: ip.version(),
                ip_1: ip.destination_text(),
                ip_2: ip.source_text(),
                l4: Transport::TCP,
                port_1: decimal(dp as nat),
                port_2: decimal(sp as nat),
                ts_start: ts,
                ts_end: ts,
                bytes: len as nat,
            },
        ),
        (Some(ip), Some(TransportPorts::Udp(sp, dp))) => Some(
            ConnectionView {
                l3: ip.version(),
                ip_1: ip.destination_text(),
                ip_2: ip.source_text(),
                l4: Transport::UDP,
                port_1: decimal(dp as nat),
                port_2: decimal(sp as nat),
                ts_start: ts,
                ts_end: ts,
                bytes: len as nat,
            },
        ),
        _ => None,
    }
}

/// The record of the frame whose raw bytes are `frame`, or `None` when
/// etherparse rejects them or they lack a supported header.
pub open spec fn raw_frame_record(frame: Seq<u8>, ts: Timestamp, len: u64) -> Option<
    ConnectionView,
> {
    match ethernet_headers(frame) {
        Some(h) => frame_record(h, ts, len),
        None => None,
    }
}

fn address_texts(ip: &IpAddresses) -> (r: (String, String))
    ensures
        r.0@ == ip.destination_text(),
        r.1@ == ip.source_text(),
{
    match ip {
        IpAddresses::V4(s, d) => (ipv4_text(d).unwrap(), ipv4_text(s).unwrap()),
        IpAddresses::V6(s, d) => (ipv6_text(d).unwrap(), ipv6_text(s).unwrap()),
    }
}

/// Builds the record of a single frame from its decoded headers.
pub fn connection_of(h: &FrameHeaders, ts: Timestamp, len: u64) -> (r: Option<Connection>)
    ensures
        (r is Some) == (frame_record(*h, ts, len) is Some),
        r is Some ==> frame_record(*h, ts, len) == Some(r->0@),
{
    match (&h.ip, &h.transport) {
        (Some(ip), Some(TransportPorts::Tcp(sp, dp))) => {
            let (a, b) = address_texts(ip);
            let l3: u8 = match ip {
                IpAddresses::V4(_, _) => 4,
                IpAddresses::V6(_, _) => 6,
            };
            Some(
                Connection::new(l3, a, b, 0, decimal_text(*dp as u64), decimal_text(*sp as u64), ts, ts, len),
            )
        },
        (Some(ip), Some(TransportPorts::Udp(sp, dp))) => {
            let (a, b) = address_texts(ip);
            let l3: u8 = match ip {
                IpAddresses::V4(_, _) => 4,
                IpAddresses::V6(_, _) => 6,
            };
            Some(
                Connection::new(l3, a, b, 1, decimal_text(*dp as u64), decimal_text(*sp as u64), ts, ts, len),
            )
        },
        _ => None,
    }
}

/// Decodes a raw Ethernet II frame and builds its record.
pub fn decode_frame(frame: &[u8], ts: Timestamp, len: u64) -> (r: Option<Connection>)
    ensures
        (r is Some) == (raw_frame_record(frame@, ts, len) is Some),
        r is Some ==> raw_frame_record(frame@, ts, len) == Some(r->0@),
{
    match decode_ethernet(frame) {
        Some(h) => connection_of(&h, ts, len),
        None => None,
    }
}

} // verus!
