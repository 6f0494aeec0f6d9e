use vstd::prelude::*;

use crate::time::Timestamp;

verus! {

/// Network layer in use by a connection.
#[derive(Clone, Copy, Debug, PartialEq, Eq, Structural)]
pub enum IpV {
    V4,
    V6,
}

/// Transport layer in use by a connection.
#[derive(Clone, Copy, Debug, PartialEq, Eq, Structural)]
pub enum Transport {
    TCP,
    UDP,
}

impl IpV {
    /// Display name of the network layer.
    pub fn name(&self) -> (r: &'static str)
        ensures
            r@ == (match *self {
                IpV::V4 => "IPv4"@,
                IpV::V6 => "IPv6"@,
            }),
    {
        match *self {
            IpV::V4 => "IPv4",
            IpV::V6 => "IPv6",
        }
    }
}

impl Transport {
    /// Display name of the transport layer.
    pub fn name(&self) -> (r: &'static str)
        ensures
            r@ == (match *self {
                Transport::TCP => "TCP"@,
                Transport::UDP => "UDP"@,
            }),
    {
        match *self {
            Transport::TCP => "TCP",
            Transport::UDP => "UDP",
        }
    }
}

/// Aggregated state of one bidirectional flow. Endpoint A is
/// (`ip_1`, `port_1`), endpoint B is (`ip_2`, `port_2`).
#[derive(Debug)]
pub struct Connection {
    pub l3: IpV,
    pub ip_1: String,
    pub ip_2: String,
    pub l4: Transport,
    pub port_1: String,
    pub port_2: String,
    pub ts_start: Timestamp,
    pub ts_end: Timestamp,
    pub bytes: u64,
}

/// Mathematical value of a [`Connection`]: its text as character sequences
/// and its byte counter as a natural number.
pub struct ConnectionView {
    pub l3: IpV,
    pub ip_1: Seq<char>,
    pub ip_2: Seq<char>,
    pub l4: Transport,
    pub port_1: Seq<char>,
    pub port_2: Seq<char>,
    pub ts_start: Timestamp,
    pub ts_end: Timestamp,
    pub bytes: nat,
}

impl View for Connection {
    type V = ConnectionView;

    open spec fn view(&self) -> ConnectionView {
        ConnectionView {
            l3: self.l3,
            ip_1: self.ip_1@,
            ip_2: self.ip_2@,
            l4: self.l4,
            port_1: self.port_1@,
            port_2: self.port_2@,
            ts_start: self.ts_start,
            ts_end: self.ts_end,
            bytes: self.bytes as nat,
        }
    }
}

impl ConnectionView {
    /// Two records denote the same connection when their transport layers
    /// agree and their endpoint pairs are equal as unordered pairs.
    pub open spec fn same_connection(self, other: ConnectionView) -> bool {
        &&& self.l4 == other.l4
        &&& {
            ||| (self.ip_1 == other.ip_1 && self.port_1 == other.port_1 && self.ip_2
                == other.ip_2 && self.port_2 == other.port_2)
            ||| (self.ip_1 == other.ip_2 && self.port_1 == other.port_2 && self.ip_2
                == other.ip_1 && self.port_2 == other.port_1)
        }
    }

    /// The fields that decide which connection a record denotes agree.
    pub open spec fn same_endpoints(self, other: ConnectionView) -> bool {
        &&& self.l4 == other.l4
        &&& self.ip_1 == other.ip_1
        &&& self.ip_2 == other.ip_2
        &&& self.port_1 == other.port_1
        &&& self.port_2 == other.port_2
    }

    /// The same record with its endpoints A and B swapped.
    pub open spec fn reversed(self) -> ConnectionView {
        ConnectionView {
            ip_1: self.ip_2,
            ip_2: self.ip_1,
            port_1: self.port_2,
            port_2: self.port_1,
            ..self
        }
    }

    /// The record after one more frame of its connection: the frame's time
    /// ends the connection and its bytes are added.
    pub open spec fn merge(self, frame: ConnectionView) -> ConnectionView {
        ConnectionView { ts_end: frame.ts_end, bytes: self.bytes + frame.bytes, ..self }
    }
}

/// The connection rule is an equivalence that ignores direction: it is
/// symmetric and transitive, a record and its mirror image (endpoints
/// swapped) denote the same connection, and records of different
/// transports never do, even on identical endpoints.
pub proof fn lemma_same_connection_rule(a: ConnectionView, b: ConnectionView, c: ConnectionView)
    ensures
        a.same_connection(a),
        a.same_connection(b) == b.same_connection(a),
        a.same_connection(b) && b.same_connection(c) ==> a.same_connection(c),
        a.same_connection(a.reversed()),
        a.same_connection(b) == a.reversed().same_connection(b),
        a.l4 != b.l4 ==> !a.same_connection(b),
{
}

impl Connection {
    /// Builds a record. A network code of 4 means IPv4, any other IPv6; a
    /// transport code of 1 means UDP, any other TCP.
    pub fn new(
        l3: u8,
        ip_1: String,
        ip_2: String,
        l4: u8,
        port_1: String,
        port_2: String,
        ts_start: Timestamp,
        ts_end: Timestamp,
        bytes: u64,
    ) -> (r: Connection)
        ensures
            r.l3 == (if l3 == 4 { IpV::V4 } else { IpV::V6 }),
            r.l4 == (if l4 == 1 { Transport::UDP } else { Transport::TCP }),
            r@.ip_1 == ip_1@,
            r@.ip_2 == ip_2@,
            r@.port_1 == port_1@,
            r@.port_2 == port_2@,
            r.ts_start == ts_start,
            r.ts_end == ts_end,
            r.bytes == bytes,
    {
        let mut ip = IpV::V4;
        if l3 != 4 {
            ip = IpV::V6;
        }
        let mut t = Transport::TCP;
        if l4 == 1 {
            t = Transport::UDP;
        }
        Connection { l3: ip, ip_1, ip_2, l4: t, port_1, port_2, ts_start, ts_end, bytes }
    }

    /// Folds one more frame into the record: its time becomes the end of
    /// the connection and its length is added to the byte counter.
    pub fn update(&mut self, new_ts_end: Timestamp, new_bytes: u64)
        requires
            old(self).bytes + new_bytes <= u64::MAX,
        ensures
            final(self)@ == (ConnectionView {
                ts_end: new_ts_end,
                bytes: old(self)@.bytes + new_bytes as nat,
                ..old(self)@
            }),
    {
        self.ts_end = new_ts_end;
        self.bytes = self.bytes + new_bytes;
    }
}

impl PartialEq for Connection {
    fn eq(&self, other: &Connection) -> (r: bool) {
        self.l4 == other.l4 && ((self.ip_1 == other.ip_1 && self.port_1 == other.port_1
            && self.ip_2 == other.ip_2 && self.port_2 == other.port_2) || (self.ip_1
            == other.ip_2 && self.port_1 == other.port_2 && self.ip_2 == other.ip_1
            && self.port_2 == other.port_1))
    }
}

impl vstd::std_specs::cmp::PartialEqSpecImpl for Connection {
    open spec fn obeys_eq_spec() -> bool {
        true
    }

    open spec fn eq_spec(&self, other: &Connection) -> bool {
        self@.same_connection(other@)
    }
}

impl Clone for Connection {
    fn clone(&self) -> (r: Connection)
        ensures
            r@ == self@,
    {
        Connection {
            l3: self.l3,
            ip_1: self.ip_1.clone(),
            ip_2: self.ip_2.clone(),
            l4: self.l4,
            port_1: self.port_1.clone(),
            port_2: self.port_2.clone(),
            ts_start: self.ts_start,
            ts_end: self.ts_end,
            bytes: self.bytes,
        }
    }
}

} // verus!
