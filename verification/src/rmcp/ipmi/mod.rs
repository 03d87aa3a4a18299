//! IPMI messages: session headers, request and response payloads, completion
//! codes, commands and the records they return.

pub mod commands;
pub mod header;
pub mod payload;
pub mod raw;
pub mod storage;

pub use header::v1::IpmiV1Header;
pub use header::v2::{IpmiV2Header, PayloadType};
pub use header::{AuthType, IpmiHeader};
pub use payload::bmc::{AddrType, Address, SlaveAddress, SoftwareType};
pub use payload::lun::Lun;
pub use payload::netfn::{CommandType, NetFn, NetfnLun, RqseqLun};
pub use payload::request::{IpmiRawRequest, ReqPayload};
pub use payload::response::RespPayload;

use crate::err::{EIpmiPayload, EPacket, Error};
use crate::rmcp::header::RmcpHeader;
use crate::rmcp::ipmi::commands::CommandCode;
use crate::rmcp::ipmi::payload::request::ReqPayloadView;
use crate::rmcp::packet::{Packet, Payload};
use vstd::prelude::*;

verus! {

/// The status byte that follows the command byte of every IPMI response.
#[derive(Clone, Copy, Debug, PartialEq, Eq, Structural)]
pub enum CompletionCode {
    CompletedNormally,
    NodeBusy,
    InvalidCommand,
    InvalidCommandForLun,
    Timeout,
    OutOfSpace,
    ReservationCancelled,
    RequestDataTruncated,
    RequestDataLengthInvalid,
    RequestDataFieldLengthLimitExceeded,
    ParameterOutOfRange,
    CannotReturnNumberOfRqDataBytes,
    RqSensorDataRecordNotPresent,
    InvalidDataFieldInRequest,
    CommandIllegalForSensor,
    CommandResponseNotProvided,
    CantExecuteDuplicateRq,
    FailedSDRUpdateMode,
    FailedDevFirmwareMode,
    FailedInitInProgress,
    DestinationUnavailable,
    CannotExecuteCommandInsuffientPrivileges,
    CommandSubFunctionUnavailable,
    CannotExecuteCommandIllegalParam,
    UnspecifiedError,
    /// A device-specific code, 0x01 to 0x7E.
    OEM(u8),
    /// A command-specific code, 0x80 to 0xBE.
    CommandCode(u8),
    /// Any other byte.
    Reserved(u8),
}

impl CompletionCode {
    /// The completion code that the byte `value` names.
    pub open spec fn spec_from(value: u8) -> CompletionCode {
        if value == 0x00 {
            CompletionCode::CompletedNormally
        } else if value == 0xc0 {
            CompletionCode::NodeBusy
        } else if value == 0xc1 {
            CompletionCode::InvalidCommand
        } else if value == 0xc2 {
            CompletionCode::InvalidCommandForLun
        } else if value == 0xc3 {
            CompletionCode::Timeout
        } else if value == 0xc4 {
            CompletionCode::OutOfSpace
        } else if value == 0xc5 {
            CompletionCode::ReservationCancelled
        } else if value == 0xc6 {
            CompletionCode::RequestDataTruncated
        } else if value == 0xc7 {
            CompletionCode::RequestDataLengthInvalid
        } else if value == 0xc8 {
            CompletionCode::RequestDataFieldLengthLimitExceeded
        } else if value == 0xc9 {
            CompletionCode::ParameterOutOfRange
        } else if value == 0xca {
            CompletionCode::CannotReturnNumberOfRqDataBytes
        } else if value == 0xcb {
            CompletionCode::RqSensorDataRecordNotPresent
        } else if value == 0xcc {
            CompletionCode::InvalidDataFieldInRequest
        } else if value == 0xcd {
            CompletionCode::CommandIllegalForSensor
        } else if value == 0xce {
            CompletionCode::CommandResponseNotProvided
        } else if value == 0xcf {
            CompletionCode::CantExecuteDuplicateRq
        } else if value == 0xd0 {
            CompletionCode::FailedSDRUpdateMode
        } else if value == 0xd1 {
            CompletionCode::FailedDevFirmwareMode
        } else if value == 0xd2 {
            CompletionCode::FailedInitInProgress
        } else if value == 0xd3 {
            CompletionCode::DestinationUnavailable
        } else if value == 0xd4 {
            CompletionCode::CannotExecuteCommandInsuffientPrivileges
        } else if value == 0xd5 {
            CompletionCode::CommandSubFunctionUnavailable
        } else if value == 0xd6 {
            CompletionCode::CannotExecuteCommandIllegalParam
        } else if value == 0xff {
            CompletionCode::UnspecifiedError
        } else if 0x01 <= value && value <= 0x7e {
            CompletionCode::OEM(value)
        } else if 0x80 <= value && value <= 0xbe {
            CompletionCode::CommandCode(value)
        } else {
            CompletionCode::Reserved(value)
        }
    }

    /// The completion code that the byte `value` names.
    pub fn from(value: u8) -> (converted: CompletionCode)
        ensures
            converted == CompletionCode::spec_from(value),
    {
        if value == 0x00 {
            CompletionCode::CompletedNormally
        } else if value == 0xc0 {
            CompletionCode::NodeBusy
        } else if value == 0xc1 {
            CompletionCode::InvalidCommand
        } else if value == 0xc2 {
            CompletionCode::InvalidCommandForLun
        } else if value == 0xc3 {
            CompletionCode::Timeout
        } else if value == 0xc4 {
            CompletionCode::OutOfSpace
        } else if value == 0xc5 {
            CompletionCode::ReservationCancelled
        } else if value == 0xc6 {
            CompletionCode::RequestDataTruncated
        } else if value == 0xc7 {
            CompletionCode::RequestDataLengthInvalid
        } else if value == 0xc8 {
            CompletionCode::RequestDataFieldLengthLimitExceeded
        } else if value == 0xc9 {
            CompletionCode::ParameterOutOfRange
        } else if value == 0xca {
            CompletionCode::CannotReturnNumberOfRqDataBytes
        } else if value == 0xcb {
            CompletionCode::RqSensorDataRecordNotPresent
        } else if value == 0xcc {
            CompletionCode::InvalidDataFieldInRequest
        } else if value == 0xcd {
            CompletionCode::CommandIllegalForSensor
        } else if value == 0xce {
            CompletionCode::CommandResponseNotProvided
        } else if value == 0xcf {
            CompletionCode::CantExecuteDuplicateRq
        } else if value == 0xd0 {
            CompletionCode::FailedSDRUpdateMode
        } else if value == 0xd1 {
            CompletionCode::FailedDevFirmwareMode
        } else if value == 0xd2 {
            CompletionCode::FailedInitInProgress
        } else if value == 0xd3 {
            CompletionCode::DestinationUnavailable
        } else if value == 0xd4 {
            CompletionCode::CannotExecuteCommandInsuffientPrivileges
        } else if value == 0xd5 {
            CompletionCode::CommandSubFunctionUnavailable
        } else if value == 0xd6 {
            CompletionCode::CannotExecuteCommandIllegalParam
        } else if value == 0xff {
            CompletionCode::UnspecifiedError
        } else if 0x01 <= value && value <= 0x7e {
            CompletionCode::OEM(value)
        } else if 0x80 <= value && value <= 0xbe {
            CompletionCode::CommandCode(value)
        } else {
            CompletionCode::Reserved(value)
        }
    }

    /// The byte that names this completion code.
    pub open spec fn spec_to_byte(&self) -> u8 {
        match *self {
            CompletionCode::CompletedNormally => 0x00,
            CompletionCode::NodeBusy => 0xc0,
            CompletionCode::InvalidCommand => 0xc1,
            CompletionCode::InvalidCommandForLun => 0xc2,
            CompletionCode::Timeout => 0xc3,
            CompletionCode::OutOfSpace => 0xc4,
            CompletionCode::ReservationCancelled => 0xc5,
            CompletionCode::RequestDataTruncated => 0xc6,
            CompletionCode::RequestDataLengthInvalid => 0xc7,
            CompletionCode::RequestDataFieldLengthLimitExceeded => 0xc8,
            CompletionCode::ParameterOutOfRange => 0xc9,
            CompletionCode::CannotReturnNumberOfRqDataBytes => 0xca,
            CompletionCode::RqSensorDataRecordNotPresent => 0xcb,
            CompletionCode::InvalidDataFieldInRequest => 0xcc,
            CompletionCode::CommandIllegalForSensor => 0xcd,
            CompletionCode::CommandResponseNotProvided => 0xce,
            CompletionCode::CantExecuteDuplicateRq => 0xcf,
            CompletionCode::FailedSDRUpdateMode => 0xd0,
            CompletionCode::FailedDevFirmwareMode => 0xd1,
            CompletionCode::FailedInitInProgress => 0xd2,
            CompletionCode::DestinationUnavailable => 0xd3,
            CompletionCode::CannotExecuteCommandInsuffientPrivileges => 0xd4,
            CompletionCode::CommandSubFunctionUnavailable => 0xd5,
            CompletionCode::CannotExecuteCommandIllegalParam => 0xd6,
            CompletionCode::UnspecifiedError => 0xff,
            CompletionCode::OEM(code) => code,
            CompletionCode::CommandCode(code) => code,
            CompletionCode::Reserved(code) => code,
        }
    }

    /// The byte that names this completion code.
    pub fn to_byte(&self) -> (byte: u8)
        ensures
            byte == self.spec_to_byte(),
    {
        match *self {
            CompletionCode::CompletedNormally => 0x00,
            CompletionCode::NodeBusy => 0xc0,
            CompletionCode::InvalidCommand => 0xc1,
            CompletionCode::InvalidCommandForLun => 0xc2,
            CompletionCode::Timeout => 0xc3,
            CompletionCode::OutOfSpace => 0xc4,
            CompletionCode::ReservationCancelled => 0xc5,
            CompletionCode::RequestDataTruncated => 0xc6,
            CompletionCode::RequestDataLengthInvalid => 0xc7,
            CompletionCode::RequestDataFieldLengthLimitExceeded => 0xc8,
            CompletionCode::ParameterOutOfRange => 0xc9,
            CompletionCode::CannotReturnNumberOfRqDataBytes => 0xca,
            CompletionCode::RqSensorDataRecordNotPresent => 0xcb,
            CompletionCode::InvalidDataFieldInRequest => 0xcc,
            CompletionCode::CommandIllegalForSensor => 0xcd,
            CompletionCode::CommandResponseNotProvided => 0xce,
            CompletionCode::CantExecuteDuplicateRq => 0xcf,
            CompletionCode::FailedSDRUpdateMode => 0xd0,
            CompletionCode::FailedDevFirmwareMode => 0xd1,
            CompletionCode::FailedInitInProgress => 0xd2,
            CompletionCode::DestinationUnavailable => 0xd3,
            CompletionCode::CannotExecuteCommandInsuffientPrivileges => 0xd4,
            CompletionCode::CommandSubFunctionUnavailable => 0xd5,
            CompletionCode::CannotExecuteCommandIllegalParam => 0xd6,
            CompletionCode::UnspecifiedError => 0xff,
            CompletionCode::OEM(code) => code,
            CompletionCode::CommandCode(code) => code,
            CompletionCode::Reserved(code) => code,
        }
    }

    pub open spec fn spec_is_success(&self) -> bool {
        *self == CompletionCode::CompletedNormally
    }

    /// Whether the command completed normally.
    pub fn is_success(&self) -> (success: bool)
        ensures
            success == self.spec_is_success(),
    {
        match self {
            CompletionCode::CompletedNormally => true,
            _ => false,
        }
    }

    pub open spec fn spec_is_reserved(&self) -> bool {
        *self is Reserved
    }

    /// Whether the code lies in a range that IPMI reserves.
    pub fn is_reserved(&self) -> (reserved: bool)
        ensures
            reserved == self.spec_is_reserved(),
    {
        match self {
            CompletionCode::Reserved(_) => true,
            _ => false,
        }
    }
}

/// A completion code read from the wire writes back as the same byte.
pub proof fn lemma_completion_code_round_trip(byte: u8)
    ensures
        CompletionCode::spec_from(byte).spec_to_byte() == byte,
        CompletionCode::spec_from(byte).spec_is_success() <==> byte == 0,
{
}

/// A command: a request encoder paired with a response decoder. The
/// dispatcher frames, protects and sequences the request and checks the
/// completion code of the response; a command only says what it sends and
/// how it reads what comes back.
pub trait IpmiCommand {
    /// What the response data decode to.
    type Output;

    spec fn spec_netfn(&self) -> NetFn;

    spec fn spec_command(&self) -> CommandCode;

    /// The request data.
    spec fn spec_data(&self) -> Seq<u8>;

    /// Whether `output` is what the response data `data` decode to.
    spec fn decodes(&self, data: Seq<u8>, output: Self::Output) -> bool;

    /// The error with which the response data `data` are refused, if they
    /// are.
    spec fn refuses(&self, data: Seq<u8>) -> Option<Error>;

    /// The network function of the command.
    fn netfn(&self) -> (netfn: NetFn)
        ensures
            netfn == self.spec_netfn(),
    ;

    /// The command code.
    fn command(&self) -> (command: CommandCode)
        ensures
            command == self.spec_command(),
    ;

    /// The request that carries the command.
    fn payload(&self) -> (payload: Payload)
        ensures
            payload matches Payload::IpmiReq(request) && request@ == ReqPayloadView::new(
                self.spec_netfn(),
                self.spec_command(),
                self.spec_data(),
            ),
    ;

    /// Decodes the data of a response that completed normally.
    fn parse(&self, data: &[u8]) -> (output: Result<Self::Output, Error>)
        ensures
            match output {
                Ok(o) => self.refuses(data@) is None && self.decodes(data@, o),
                Err(e) => self.refuses(data@) == Some(e),
            },
    ;

    /// Turns a completion code other than "completed normally" into an
    /// error.
    fn check_cc_success(cc: CompletionCode) -> (checked: Result<CompletionCode, Error>)
        ensures
            checked == spec_check_cc_success(cc),
    {
        if cc.is_success() {
            Ok(cc)
        } else {
            Err(Error::Packet(EPacket::IpmiPayload(EIpmiPayload::CompletionCode(cc))))
        }
    }

    /// The packet that carries the command inside an established session.
    /// Session identifier, sequence number and payload length are filled in
    /// when the packet is sent.
    fn gen_packet(&self) -> (packet: Packet)
        ensures
            packet.rmcp_header == RmcpHeader::spec_default(),
            packet.ipmi_header == IpmiHeader::V2_0(
                IpmiV2Header::spec_new(AuthType::RmcpPlus, true, true, PayloadType::Ipmi, 0, 0, 32),
            ),
            packet.payload matches Payload::IpmiReq(request) && request@ == ReqPayloadView::new(
                self.spec_netfn(),
                self.spec_command(),
                self.spec_data(),
            ),
    {
        Packet::new(
            RmcpHeader::default(),
            IpmiHeader::V2_0(IpmiV2Header::new_est(32)),
            self.payload(),
        )
    }
}

/// What a completion code means for a command: success gives the code
/// back, any other code is an error.
pub open spec fn spec_check_cc_success(cc: CompletionCode) -> Result<CompletionCode, Error> {
    if cc.spec_is_success() {
        Ok(cc)
    } else {
        Err(Error::Packet(EPacket::IpmiPayload(EIpmiPayload::CompletionCode(cc))))
    }
}

} // verus!
