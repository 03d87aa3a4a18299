//! The error taxonomy of the library.
//!
//! Every error is plain data, so that contracts can say exactly which error
//! an input gives.

pub mod ipmi_client;
pub mod packet;

pub use ipmi_client::EClient;
pub use packet::{
    ECommand, ECommandCode, EIpmiHeader, EIpmiPayload, EPacket, EParse, ERMCPHeader, EV1Header,
    EV2Header,
};

use crate::rmcp::ipmi::CompletionCode;
use vstd::prelude::*;

verus! {

/// Any failure the library reports.
#[derive(Clone, Copy, Debug, PartialEq, Eq, Structural)]
pub enum Error {
    /// A failure of the session engine or of the dispatcher.
    Client(EClient),
    /// A datagram that could not be parsed.
    Packet(EPacket),
    /// A failure of payload protection.
    Crypto(ECrypto),
    /// A byte that does not name a value of the target type.
    TryFromU8(u8),
    /// A socket-level fault reported by the transport.
    Io,
    /// No response arrived in time.
    Timeout,
}

/// Failures of confidentiality and integrity handling.
#[derive(Clone, Copy, Debug, PartialEq, Eq, Structural)]
pub enum ECrypto {
    /// The ciphertext is not a whole number of blocks, or the padding it
    /// decrypts to is malformed.
    Unpad,
    /// The integrity trailer is malformed or its authentication code does not
    /// match the one recomputed with the session's integrity key.
    AuthCodeMismatch,
}

impl Error {
    /// Whether this error is the completion code with which a BMC ends an
    /// iteration over its sensor data records.
    pub open spec fn spec_is_rq_sensor_data_record_not_present(&self) -> bool {
        *self matches Error::Client(EClient::CompletionCode(_, code))
            && code == CompletionCode::RqSensorDataRecordNotPresent
    }

    /// Whether this error is the completion code with which a BMC ends an
    /// iteration over its sensor data records.
    pub fn is_rq_sensor_data_record_not_present(&self) -> (found: bool)
        ensures
            found == self.spec_is_rq_sensor_data_record_not_present(),
    {
        match self {
            Error::Client(EClient::CompletionCode(_, CompletionCode::RqSensorDataRecordNotPresent)) => true,
            _ => false,
        }
    }

    /// Whether a client with auto-reconnect enabled re-establishes its session
    /// after this error: socket-level faults and command-code cross-talk do,
    /// nothing else does.
    pub open spec fn spec_triggers_reconnect(&self) -> bool {
        match *self {
            Error::Io => true,
            Error::Timeout => true,
            Error::Client(EClient::FailedBind) => true,
            Error::Client(EClient::ConnectToIPMIServer) => true,
            Error::Client(EClient::FailedSend) => true,
            Error::Client(EClient::NoResponse) => true,
            Error::Client(EClient::CommandCodeCrossTalk { .. }) => true,
            _ => false,
        }
    }

    /// Whether a client with auto-reconnect enabled re-establishes its session
    /// after this error.
    pub fn triggers_reconnect(&self) -> (reconnect: bool)
        ensures
            reconnect == self.spec_triggers_reconnect(),
    {
        match self {
            Error::Io => true,
            Error::Timeout => true,
            Error::Client(EClient::FailedBind) => true,
            Error::Client(EClient::ConnectToIPMIServer) => true,
            Error::Client(EClient::FailedSend) => true,
            Error::Client(EClient::NoResponse) => true,
            Error::Client(EClient::CommandCodeCrossTalk { .. }) => true,
            _ => false,
        }
    }

    /// Whether sending the same packet again may help: a timeout, a
    /// socket-level fault or a missing response.
    pub open spec fn spec_is_retryable(&self) -> bool {
        match *self {
            Error::Io => true,
            Error::Timeout => true,
            Error::Client(EClient::FailedSend) => true,
            Error::Client(EClient::NoResponse) => true,
            _ => false,
        }
    }

    /// Whether sending the same packet again may help.
    pub fn is_retryable(&self) -> (retry: bool)
        ensures
            retry == self.spec_is_retryable(),
    {
        match self {
            Error::Io => true,
            Error::Timeout => true,
            Error::Client(EClient::FailedSend) => true,
            Error::Client(EClient::NoResponse) => true,
            _ => false,
        }
    }
}

} // verus!
