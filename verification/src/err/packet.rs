//! Failures of the wire codecs.

use crate::rmcp::ipmi::commands::CommandCode;
use crate::rmcp::ipmi::CompletionCode;
use vstd::prelude::*;

verus! {

/// Why a datagram holds no packet.
#[derive(Clone, Copy, Debug, PartialEq, Eq, Structural)]
pub enum EPacket {
    /// The datagram is shorter than the twenty bytes of the shortest packet,
    /// or shorter than its headers and payload length announce.
    WrongLength,
    /// The first four bytes are no RMCP header.
    RmcpHeader(ERMCPHeader),
    /// The bytes after the RMCP header are no session header.
    IpmiHeader(EIpmiHeader),
    /// The payload is not of the shape its type demands.
    IpmiPayload(EIpmiPayload),
    /// The payload type is one a BMC never sends to a console.
    Unknown,
}

/// Why four bytes are no RMCP header.
#[derive(Clone, Copy, Debug, PartialEq, Eq, Structural)]
pub enum ERMCPHeader {
    /// An RMCP header has exactly four bytes.
    WrongLength,
    /// The message class is none of ASF, IPMI and OEM.
    UnsupportedMessageClass(u8),
}

/// Why bytes are no session header.
#[derive(Clone, Copy, Debug, PartialEq, Eq, Structural)]
pub enum EIpmiHeader {
    /// The first byte names no authentication type.
    UnsupportedAuthType(u8),
    V1(EV1Header),
    V2(EV2Header),
}

/// Why bytes are no IPMI v2.0 session header.
#[derive(Clone, Copy, Debug, PartialEq, Eq, Structural)]
pub enum EV2Header {
    /// An IPMI v2.0 session header has twelve bytes, or eighteen for an OEM
    /// payload.
    WrongLength,
    /// The low six bits of the second byte name no payload type.
    UnsupportedPayloadType(u8),
}

/// Why bytes are no IPMI v1.5 session header.
#[derive(Clone, Copy, Debug, PartialEq, Eq, Structural)]
pub enum EV1Header {
    /// An IPMI v1.5 session header has ten bytes, or twenty-six with an
    /// authentication code.
    WrongLength,
}

/// Why bytes are no payload of the type they came as.
#[derive(Clone, Copy, Debug, PartialEq, Eq, Structural)]
pub enum EIpmiPayload {
    /// The payload is shorter than its type demands, or its length is none
    /// of those its type allows.
    WrongLength,
    /// One of the two checksums of an IPMI message does not verify.
    Checksum,
    /// The completion code is not "completed normally".
    CompletionCode(CompletionCode),
    /// A field of the payload, or the data of a response, cannot be read.
    Command(ECommand),
}

/// Why a field or the data of a response cannot be read.
#[derive(Clone, Copy, Debug, PartialEq, Eq, Structural)]
pub enum ECommand {
    /// The byte is above 3.
    UnknownLun(u8),
    /// The byte names no privilege level.
    UnknownPrivilege(u8),
    /// The byte names no authentication algorithm.
    UnknownAuthAlgorithm(u8),
    /// The byte names no integrity algorithm.
    UnknownIntegrityAlgorithm(u8),
    /// The byte names no confidentiality algorithm.
    UnknownConfidentialityAlgorithm(u8),
    /// The data are shorter than the command requires.
    NotEnoughData(ECommandCode),
    /// The record type of an event log entry is neither 0x02 nor an OEM
    /// type.
    UnknownRecordType(u8),
    /// A sensor record or a sensor reading is not of the shape it must
    /// have.
    Parse(EParse),
}

/// What was wrong with a record that could not be parsed.
#[derive(Clone, Copy, Debug, PartialEq, Eq, Structural)]
pub enum EParse {
    /// A sensor key has exactly three bytes.
    SensorKeyLength,
    /// Sensor number 0xFF is reserved.
    SensorNumberReserved,
    /// The channel number of a sensor key is 0xC or 0xD.
    SensorChannelReserved,
    /// The common part of a sensor record has eighteen bytes.
    SensorRecordCommonLength,
    /// A sensor record is too short for the name it must hold.
    SensorRecordLength,
    /// The direction of a sensor is the reserved code 3.
    SensorDirectionReserved,
    /// A sensor reading has at least two bytes.
    RawSensorReadingLength,
}

/// A response that is shorter than its command requires.
#[derive(Clone, Copy, Debug, PartialEq, Eq, Structural)]
pub struct ECommandCode {
    pub command: CommandCode,
    pub expected_len: u8,
    pub get_len: usize,
}

impl ECommandCode {
    pub fn new(command: CommandCode, expected_len: u8, get_len: usize) -> (e: Self)
        ensures
            e == (ECommandCode { command, expected_len, get_len }),
    {
        Self { command, expected_len, get_len }
    }
}

} // verus!
