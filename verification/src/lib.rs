//! Client-side IPMI v2.0 / RMCP+ protocol engine: wire codecs, session key
//! derivation, packet protection and the authentication state machine.
//!
//! The engine does no input or output. A caller owns the socket: it sends
//! what a session hands out and hands back what the BMC answered.

pub mod client;
pub mod err;
pub mod helpers;
pub mod rmcp;

pub use client::{ClientConfig, SessionActived, SessionInactived, SessionKeys, State, Step};
pub use err::{
    EClient, ECommand, ECommandCode, ECrypto, EIpmiHeader, EIpmiPayload, EPacket, EParse,
    ERMCPHeader, EV1Header, EV2Header, Error,
};
pub use helpers::{append_u128_to_vec, append_u32_to_vec, checksum, u8_ms_bit};
pub use rmcp::ipmi::commands::{CloseSessionCMD, CommandCode, Privilege};
pub use rmcp::ipmi::{
    AuthType, CompletionCode, IpmiCommand, IpmiHeader, IpmiRawRequest, IpmiV1Header,
    IpmiV2Header, Lun, NetFn, NetfnLun, PayloadType, ReqPayload, RespPayload,
};
pub use rmcp::{MessageClass, Packet, Payload, RmcpHeader};
