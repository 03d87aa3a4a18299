//! Failures of the session engine and of the dispatcher.

use crate::rmcp::ipmi::commands::CommandCode;
use crate::rmcp::ipmi::CompletionCode;
use crate::rmcp::plus::open_session::StatusCode;
use vstd::prelude::*;

verus! {

/// A failure of the session engine, of the dispatcher, or of the socket
/// that a caller reports to them.
#[derive(Clone, Copy, Debug, PartialEq, Eq, Structural)]
pub enum EClient {
    /// The local socket could not be bound.
    FailedBind,
    /// The socket could not be connected to the BMC.
    ConnectToIPMIServer,
    /// A datagram could not be sent.
    FailedSend,
    /// The BMC sent no response.
    NoResponse,
    /// The response carries a payload of another type than the one awaited.
    MisformedResponse,
    /// The peer offers IPMI v1.5 only.
    UnsupportedVersion,
    /// The BMC answered the open-session request or a RAKP message with a
    /// status other than "no errors".
    FailedToOpenSession(StatusCode),
    /// The integrity check value of RAKP message 4 is missing or wrong.
    MismatchedKeyExchangeAuthCode,
    /// The key exchange authentication code of RAKP message 2 is missing or
    /// wrong; in practice, a wrong password.
    FailedToValidateRAKP2,
    /// The user name is longer than the sixteen bytes the protocol allows.
    UsernameTooLong,
    /// The session is not at the step that the call needs.
    SessionNotEstablishedYet,
    /// The BMC completed the command with a code other than "completed
    /// normally".
    CompletionCode(CommandCode, CompletionCode),
    /// The response answers another command than the one that was sent.
    CommandCodeCrossTalk { request: CommandCode, response: CommandCode },
}

} // verus!
