//! Application commands.

pub mod channel;
pub mod cipher;
