//! RMCP and RMCP+ framing.

pub mod header;
pub mod ipmi;
pub mod packet;
pub mod plus;

pub use header::{MessageClass, RmcpHeader};
pub use packet::{Packet, Payload};
