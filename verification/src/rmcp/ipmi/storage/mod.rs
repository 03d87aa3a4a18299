//! The records a BMC stores: sensor data records and event log entries.

pub mod sdr;
pub mod sel;
