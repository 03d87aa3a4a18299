//! RMCP+ session setup and packet protection.

pub mod crypto;
pub mod open_session;
pub mod rakp;
