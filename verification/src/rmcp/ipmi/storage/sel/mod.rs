//! The system event log.

pub mod constant;
pub mod entry;
pub mod event;

pub use entry::Entry;
pub use event::{EventDirection, EventGenerator, EventMessageRevision, EventType};
