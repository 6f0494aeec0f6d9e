use etherparse::PacketBuilder;
use packet_sniffer::clock::{SessionClock, TimerAction};
use packet_sniffer::connection::{Connection, Transport};
use packet_sniffer::report::{header_text, render_row};
use packet_sniffer::sniffer::{Sniffer, SnifferError};
use packet_sniffer::time::Timestamp;

fn devices() -> Option<Vec<String>> {
    Some(vec!["eth0".to_string(), "wlan0".to_string()])
}

fn sniffer() -> Sniffer {
    Sniffer::new("out.txt".to_string(), 1, 2000, "tcp".to_string(), devices()).unwrap()
}

fn frame_v4(tcp: bool, src: [u8; 4], sport: u16, dst: [u8; 4], dport: u16) -> Vec<u8> {
    let ip = PacketBuilder::ethernet2([1, 2, 3, 4, 5, 6], [7, 8, 9, 10, 11, 12]).ipv4(src, dst, 20);
    let mut out = Vec::new();
    if tcp {
        ip.tcp(sport, dport, 1, 1024).write(&mut out, &[0u8; 4]).unwrap();
    } else {
        ip.udp(sport, dport).write(&mut out, &[0u8; 4]).unwrap();
    }
    out
}

#[test]
fn new_picks_the_device_by_number() {
    let s = sniffer();
    assert_eq!(s.device(), "wlan0");
    assert_eq!(s.file_name(), "out.txt");
    assert_eq!(s.filter(), "tcp");
    assert_eq!(s.timer_ms(), 2000);
    assert_eq!(s.connections().len(), 0);
}

#[test]
fn new_rejects_unknown_device() {
    let r = Sniffer::new("f".to_string(), 2, 1000, String::new(), devices());
    assert!(matches!(r, Err(SnifferError::DeviceNotFound)));
    let empty = Sniffer::new("f".to_string(), 0, 1000, String::new(), Some(Vec::new()));
    assert!(matches!(empty, Err(SnifferError::DeviceNotFound)));
}

#[test]
fn new_reports_missing_device_list() {
    let r = Sniffer::new("f".to_string(), 0, 1000, String::new(), None);
    assert!(matches!(r, Err(SnifferError::DevicesListImpossibleToGet)));
}

#[test]
fn error_messages() {
    assert_eq!(SnifferError::DeviceNotFound.message(), "Device not found");
    assert_eq!(SnifferError::DevicesListImpossibleToGet.message(), "No devices available");
    assert_eq!(
        SnifferError::InvalidFilter.message(),
        "Invalid Filter: correct syntax is available at https://biot.com/capstats/bpf.html"
    );
    assert_eq!(
        SnifferError::OpenErrorCapture.message(),
        "Impossible to open capture for the selected device "
    );
}

#[test]
fn two_second_session_with_three_frames() {
    let a = [10, 0, 0, 1];
    let b = [10, 0, 0, 2];
    let c = [10, 0, 0, 3];
    let mut s = sniffer();
    let mut clock = SessionClock::new(s.timer_ms(), 0);
    assert!(s.process_frame(&frame_v4(true, a, 5000, b, 80), Timestamp::new(100, 0), 100));
    assert!(s.process_frame(&frame_v4(true, b, 80, a, 5000), Timestamp::new(100, 5), 200));
    assert!(s.process_frame(&frame_v4(false, a, 6000, c, 53), Timestamp::new(101, 0), 50));
    assert_eq!(clock.poll(1000), TimerAction::WaitMs(1000));
    assert_eq!(clock.poll(2000), TimerAction::Expire);
    let snap = s.snapshot();
    assert_eq!(snap.len(), 2);
    assert_eq!(snap[0].l4, Transport::TCP);
    assert_eq!(snap[0].bytes, 300);
    assert_eq!(snap[1].l4, Transport::UDP);
    assert_eq!(snap[1].bytes, 50);
    assert_eq!(s.total_bytes(), 350);
}

#[test]
fn undecodable_frames_leave_the_table_alone() {
    let mut s = sniffer();
    assert!(!s.process_frame(&[0u8; 5], Timestamp::new(1, 0), 5));
    assert_eq!(s.connections().len(), 0);
    assert_eq!(s.total_bytes(), 0);
}

#[test]
fn report_has_a_header_and_one_line_per_connection() {
    let mut s = sniffer();
    s.process_frame(&frame_v4(true, [10, 0, 0, 1], 5000, [10, 0, 0, 2], 80), Timestamp::new(100, 0), 100);
    s.process_frame(&frame_v4(false, [10, 0, 0, 1], 6000, [10, 0, 0, 3], 53), Timestamp::new(101, 0), 50);
    let lines = s.report();
    assert_eq!(lines.len(), 3);
    assert_eq!(lines[0], header_text());
    assert!(lines[1].starts_with("| 1    | IPv4        | 10.0.0.2 "));
    assert!(lines[2].starts_with("| 2    | IPv4        | 10.0.0.3 "));
    assert!(lines[2].ends_with("| 50                       |\n"));
}

#[test]
fn header_layout() {
    let expected = format!(
        " WIRECATFISH packet capture\n\n| N°   | {0: <11} | {1: <40} | {2: <40} | {3: <18} | {4: <15} | {5: <11} | {6: <19} | {7: <19} | {8: <24} |\n",
        "IP Protocol",
        "Address A",
        "Address B",
        "Transport Protocol",
        "Port A",
        "Port B",
        "Connection Start",
        "Connection End ",
        "Data Trasmitted (Bytes)"
    );
    assert_eq!(header_text(), expected);
}

#[test]
fn row_layout() {
    let ts = Timestamp::new(0, 0);
    let c = Connection::new(
        4,
        "10.0.0.2".to_string(),
        "10.0.0.1".to_string(),
        0,
        "80".to_string(),
        "5000".to_string(),
        ts,
        ts,
        300,
    );
    let expected = format!(
        "| {0: <4} | {1}        | {2: <40} | {3: <40} | {4}                | {5: <15} | {6: <11} | {7: <19} | {8: <19} | {9: <24} |\n",
        12, "IPv4", "10.0.0.2", "10.0.0.1", "TCP", "80", "5000", "2024/01/02 03:04:05", "2024/01/02 03:04:06", 300
    );
    assert_eq!(render_row(12, &c, "2024/01/02 03:04:05", "2024/01/02 03:04:06"), expected);
}

#[test]
fn capture_times_are_written_to_the_second() {
    let t = packet_sniffer::report::time_text(1_700_000_000);
    assert_eq!(t.len(), 19);
    assert_eq!(&t[4..5], "/");
    assert_eq!(&t[13..14], ":");
    assert_eq!(packet_sniffer::report::time_text(i64::MAX), "");
}
