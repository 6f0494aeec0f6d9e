use vstd::prelude::*;

verus! {

/// Capture time of a frame: whole seconds since the Unix epoch and the
/// microseconds within that second.
#[derive(Clone, Copy, Debug, PartialEq, Eq, Structural)]
pub struct Timestamp {
    pub secs: i64,
    pub micros: u32,
}

impl Timestamp {
    /// The instant as a number of microseconds since the epoch.
    pub open spec fn as_micros(self) -> int {
        self.secs * 1_000_000 + self.micros
    }

    pub fn new(secs: i64, micros: u32) -> (r: Timestamp)
        ensures
            r.secs == secs,
            r.micros == micros,
    {
        Timestamp { secs, micros }
    }
}

} // verus!
