use vstd::prelude::*;

use crate::connection::{Connection, ConnectionView};
use crate::frame::{decode_frame, raw_frame_record};
use crate::report::{header_text, is_row_of, render_row, report_header, row_text, time_text};
use crate::table::{total_bytes, upsert_spec, ConnectionTable};
use crate::time::Timestamp;

verus! {

/// Failures that prevent a capture session from starting.
#[derive(Clone, Copy, Debug, PartialEq, Eq, Structural)]
pub enum SnifferError {
    DevicesListImpossibleToGet,
    DeviceNotFound,
    InvalidFilter,
    OpenErrorCapture,
}

impl SnifferError {
    /// Human-readable description of the failure.
    pub fn message(&self) -> (r: &'static str)
        ensures
            r@ == (match *self {
                SnifferError::DeviceNotFound => "Device not found"@,
                SnifferError::DevicesListImpossibleToGet => "No devices available"@,
                SnifferError::InvalidFilter => "Invalid Filter: correct syntax is available at https://biot.com/capstats/bpf.html"@,
                SnifferError::OpenErrorCapture => "Impossible to open capture for the selected device "@,
            }),
    {
        match *self {
            SnifferError::DeviceNotFound => "Device not found",
            SnifferError::DevicesListImpossibleToGet => "No devices available",
            SnifferError::InvalidFilter => "Invalid Filter: correct syntax is available at https://biot.com/capstats/bpf.html",
            SnifferError::OpenErrorCapture => "Impossible to open capture for the selected device ",
        }
    }
}

/// Mathematical value of a [`Sniffer`].
pub struct SnifferView {
    pub file_name: Seq<char>,
    pub dev: Seq<char>,
    pub filter: Seq<char>,
    pub timer_ms: u64,
    pub connections: Seq<ConnectionView>,
}

/// A capture session's configuration and its connection table.
pub struct Sniffer {
    file_name: String,
    dev: String,
    filter: String,
    timer_ms: u64,
    connections: ConnectionTable,
}

impl View for Sniffer {
    type V = SnifferView;

    closed spec fn view(&self) -> SnifferView {
        SnifferView {
            file_name: self.file_name@,
            dev: self.dev@,
            filter: self.filter@,
            timer_ms: self.timer_ms,
            connections: self.connections@,
        }
    }
}

impl Sniffer {
    pub closed spec fn wf(&self) -> bool {
        self.connections.wf()
    }

    /// Sets up a session on device number `dev` of `devices`, the names of
    /// the machine's capture devices (`None` when they could not be
    /// listed), to run for `timer_ms` milliseconds of capture and write its
    /// report to `file_name`.
    pub fn new(
        file_name: String,
        dev: usize,
        timer_ms: u64,
        filter: String,
        devices: Option<Vec<String>>,
    ) -> (r: Result<Sniffer, SnifferError>)
        ensures
            devices is None ==> r == Err::<Sniffer, SnifferError>(
                SnifferError::DevicesListImpossibleToGet,
            ),
            devices is Some && dev >= devices->0.len() ==> r == Err::<Sniffer, SnifferError>(
                SnifferError::DeviceNotFound,
            ),
            devices is Some && dev < devices->0.len() ==> {
                &&& r is Ok
                &&& r->Ok_0.wf()
                &&& r->Ok_0@ == (SnifferView {
                    file_name: file_name@,
                    dev: devices->0[dev as int]@,
                    filter: filter@,
                    timer_ms,
                    connections: Seq::empty(),
                })
            },
    {
        match devices {
            None => Err(SnifferError::DevicesListImpossibleToGet),
            Some(devs) => {
                if devs.len() <= dev {
                    return Err(SnifferError::DeviceNotFound);
                }
                let dev_name = devs[dev].clone();
                Ok(
                    Sniffer {
                        file_name,
                        dev: dev_name,
                        filter,
                        timer_ms,
                        connections: ConnectionTable::new(),
                    },
                )
            },
        }
    }

    /// Where the report is written.
    pub fn file_name(&self) -> (r: &str)
        ensures
            r@ == self@.file_name,
    {
        self.file_name.as_str()
    }

    /// Name of the capture device.
    pub fn device(&self) -> (r: &str)
        ensures
            r@ == self@.dev,
    {
        self.dev.as_str()
    }

    /// The capture filter expression.
    pub fn filter(&self) -> (r: &str)
        ensures
            r@ == self@.filter,
    {
        self.filter.as_str()
    }

    /// Configured running time of the session, in milliseconds.
    pub fn timer_ms(&self) -> (r: u64)
        ensures
            r == self@.timer_ms,
    {
        self.timer_ms
    }

    /// The connection table.
    pub fn connections(&self) -> (r: &ConnectionTable)
        ensures
            r@ == self@.connections,
            self.wf() ==> r.wf(),
    {
        &self.connections
    }

    /// Sum of the byte counters of all connections.
    pub fn total_bytes(&self) -> (r: u64)
        requires
            self.wf(),
        ensures
            r == total_bytes(self@.connections),
    {
        self.connections.total_bytes()
    }

    /// A point-in-time copy of the connection records, in table order.
    pub fn snapshot(&self) -> (r: Vec<Connection>)
        ensures
            r@.map_values(|c: Connection| c@) == self@.connections,
    {
        self.connections.snapshot()
    }

    /// Handles one captured frame: its raw bytes, capture time and length.
    /// A frame that decodes to a TCP or UDP record is merged into the
    /// table; any other frame is skipped. Returns whether it was merged.
    pub fn process_frame(&mut self, frame: &[u8], ts: Timestamp, len: u32) -> (r: bool)
        requires
            old(self).wf(),
            total_bytes(old(self)@.connections) + len <= u64::MAX,
        ensures
            final(self).wf(),
            r == (raw_frame_record(frame@, ts, len as u64) is Some),
            raw_frame_record(frame@, ts, len as u64) is None ==> final(self)@ == old(self)@,
            raw_frame_record(frame@, ts, len as u64) is Some ==> final(self)@ == (SnifferView {
                connections: upsert_spec(
                    old(self)@.connections,
                    raw_frame_record(frame@, ts, len as u64)->0,
                ),
                ..old(self)@
            }),
    {
        match decode_frame(frame, ts, len as u64) {
            Some(c) => {
                self.connections.upsert(c);
                true
            },
            None => false,
        }
    }

    /// The report of the connection table: the title and column heads,
    /// then one line per record in table order, numbered from 1.
    pub fn report(&self) -> (r: Vec<String>)
        requires
            self.wf(),
        ensures
            r.len() == self@.connections.len() + 1,
            r[0]@ == report_header(),
            forall|i: int|
                0 <= i < self@.connections.len() ==> is_row_of(
                    (#[trigger] r[i + 1])@,
                    (i + 1) as nat,
                    self@.connections[i],
                ),
    {
        let mut out: Vec<String> = Vec::new();
        out.push(header_text());
        let n = self.connections.len();
        let mut i: usize = 0;
        while i < n
            invariant
                n == self@.connections.len(),
                0 <= i <= n,
                out.len() == i + 1,
                out[0]@ == report_header(),
                forall|k: int|
                    0 <= k < i ==> is_row_of(
                        (#[trigger] out[k + 1])@,
                        (k + 1) as nat,
                        self@.connections[k],
                    ),
            decreases n - i,
        {
            let c = self.connections.get(i);
            let start = time_text(c.ts_start.secs);
            let end = time_text(c.ts_end.secs);
            let row = render_row((i + 1) as u64, c, start.as_str(), end.as_str());
            out.push(row);
            assert(out[i + 1]@ == row_text((i + 1) as nat, self@.connections[i as int], start@, end@));
            i = i + 1;
        }
        out
    }
}

} // verus!
