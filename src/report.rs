use chrono::{DateTime, Local};
use vstd::prelude::*;
use vstd::string::*;

use crate::connection::{Connection, ConnectionView, IpV, Transport};
use crate::text::{decimal, decimal_text, pad_right, push_padded};

verus! {

/// The title and column heads of a connection report.
pub open spec fn report_header() -> Seq<char> {
    " WIRECATFISH packet capture\n\n"@ + "| N°   | "@ + pad_right("IP Protocol"@, 11) + " | "@
        + pad_right("Address A"@, 40) + " | "@ + pad_right("Address B"@, 40) + " | "@
        + pad_right("Transport Protocol"@, 18) + " | "@ + pad_right("Port A"@, 15) + " | "@
        + pad_right("Port B"@, 11) + " | "@ + pad_right("Connection Start"@, 19) + " | "@
        + pad_right("Connection End "@, 19) + " | "@ + pad_right("Data Trasmitted (Bytes)"@, 24)
        + " |\n"@
}

pub open spec fn l3_name(l3: IpV) -> Seq<char> {
    match l3 {
        IpV::V4 => "IPv4"@,
        IpV::V6 => "IPv6"@,
    }
}

pub open spec fn l4_name(l4: Transport) -> Seq<char> {
    match l4 {
        Transport::TCP => "TCP"@,
        Transport::UDP => "UDP"@,
    }
}

/// Line `n` of a connection report, for record `c` whose start and end
/// times read `start` and `end`.
pub open spec fn row_text(n: nat, c: ConnectionView, start: Seq<char>, end: Seq<char>) -> Seq<
    char,
> {
    "| "@ + pad_right(decimal(n), 4) + " | "@ + l3_name(c.l3) + "        | "@ + pad_right(c.ip_1, 40)
        + " | "@ + pad_right(c.ip_2, 40) + " | "@ + l4_name(c.l4) + "                | "@
        + pad_right(c.port_1, 15) + " | "@ + pad_right(c.port_2, 11) + " | "@ + pad_right(start, 19)
        + " | "@ + pad_right(end, 19) + " | "@ + pad_right(decimal(c.bytes), 24) + " |\n"@
}

/// `line` is line `n` of a report for record `c`, whatever its start and
/// end times read.
pub open spec fn is_row_of(line: Seq<char>, n: nat, c: ConnectionView) -> bool {
    exists|start: Seq<char>, end: Seq<char>| #[trigger] row_text(n, c, start, end) == line
}

/// Relies on chrono's `DateTime::from_timestamp`, `with_timezone` and
/// `format`: the second `secs` after the Unix epoch, in the machine's time
/// zone, as `YYYY/MM/DD hh:mm:ss`, or `None` where chrono cannot represent
/// it. The text depends on the time zone, so nothing is stated of it.
/// chrono reads the zone from the machine and panics only where that data
/// holds no local time type for the instant.
#[verifier::external_body]
fn local_time_text(secs: i64) -> (r: Option<String>) {
    match DateTime::from_timestamp(secs, 0) {
        Some(t) => Some(t.with_timezone(&Local).format("%Y/%m/%d %H:%M:%S").to_string()),
        None => None,
    }
}

/// A capture time as the report shows it: local date and time to the
/// second, or nothing where it cannot be represented.
pub fn time_text(secs: i64) -> String {
    match local_time_text(secs) {
        Some(t) => t,
        None => String::new(),
    }
}

/// The title and column heads of a connection report.
pub fn header_text() -> (r: String)
    ensures
        r@ == report_header(),
{
    let mut s = String::from_str(" WIRECATFISH packet capture\n\n");
    s.append("| N°   | ");
    push_padded(&mut s, "IP Protocol", 11);
    s.append(" | ");
    push_padded(&mut s, "Address A", 40);
    s.append(" | ");
    push_padded(&mut s, "Address B", 40);
    s.append(" | ");
    push_padded(&mut s, "Transport Protocol", 18);
    s.append(" | ");
    push_padded(&mut s, "Port A", 15);
    s.append(" | ");
    push_padded(&mut s, "Port B", 11);
    s.append(" | ");
    push_padded(&mut s, "Connection Start", 19);
    s.append(" | ");
    push_padded(&mut s, "Connection End ", 19);
    s.append(" | ");
    push_padded(&mut s, "Data Trasmitted (Bytes)", 24);
    s.append(" |\n");
    s
}

/// Line `n` of a connection report for record `c`, with its start and end
/// times already written out.
pub fn render_row(n: u64, c: &Connection, start: &str, end: &str) -> (r: String)
    ensures
        r@ == row_text(n as nat, c@, start@, end@),
{
    let mut s = String::from_str("| ");
    let num = decimal_text(n);
    push_padded(&mut s, num.as_str(), 4);
    s.append(" | ");
    s.append(c.l3.name());
    s.append("        | ");
    push_padded(&mut s, c.ip_1.as_str(), 40);
    s.append(" | ");
    push_padded(&mut s, c.ip_2.as_str(), 40);
    s.append(" | ");
    s.append(c.l4.name());
    s.append("                | ");
    push_padded(&mut s, c.port_1.as_str(), 15);
    s.append(" | ");
    push_padded(&mut s, c.port_2.as_str(), 11);
    s.append(" | ");
    push_padded(&mut s, start, 19);
    s.append(" | ");
    push_padded(&mut s, end, 19);
    s.append(" | ");
    let bytes = decimal_text(c.bytes);
    push_padded(&mut s, bytes.as_str(), 24);
    s.append(" |\n");
    s
}

} // verus!
