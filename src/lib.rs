//! Capture-session core of a packet sniffer: bidirectional connection
//! records, the table that merges frames into them, the pausable countdown
//! clock that bounds a session, and the decisions of the capture loop.

pub mod clock;
pub mod connection;
pub mod frame;
pub mod report;
pub mod session;
pub mod sniffer;
pub mod table;
pub mod text;
pub mod time;
