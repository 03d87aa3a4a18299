//! The commands this library knows how to encode and decode.

pub mod app;
pub mod chassis;
pub mod sdr;
pub mod sel;

pub use app::channel::{
    AnonLogin, AnonStatus, AuthVersion, GetChannelAuthCapabilitiesRequest,
    GetChannelAuthCapabilitiesResponse, Privilege, KG,
};
pub use app::cipher::{GetChannelCipherSuitesRequest, GetChannelCipherSuitesResponse};
pub use chassis::{BootOpt, ChassisControl, GetChassisStatus, GetChassisStatusResp, PowerState};
pub use sdr::{
    AllocInfo, GetAllocInfo, GetDeviceSdrCommand, GetSDRRepositoryInfo, GetSensorReading,
    RawSensorReading, RecordInfo, ReserveSDRRepository, ReserveSDRRepositoryCommand,
    SDRRepositoryInfo, ThresholdReading, ThresholdStatus,
};
pub use sel::{GetSelEntry, GetSelInfo, SelInfo, SelRecord};

use crate::err::Error;
use crate::helpers::u32_le;
use crate::rmcp::ipmi::payload::netfn::NetFn;
use crate::rmcp::ipmi::payload::request::ReqPayload;
use crate::rmcp::ipmi::IpmiCommand;
use crate::rmcp::packet::Payload;
use vstd::prelude::*;

verus! {

/// The command byte of an IPMI message.
#[derive(Clone, Copy, Debug, PartialEq, Eq, Structural)]
pub enum CommandCode {
    /// A command this library has no name for.
    Raw(u8),
    GetChannelAuthCapabilities,
    SetSessionPrivilegeLevel,
    CloseSession,
    GetChannelCipherSuites,
}

impl CommandCode {
    /// The command that the byte `value` names.
    pub open spec fn spec_from(value: u8) -> CommandCode {
        if value == 0x38 {
            CommandCode::GetChannelAuthCapabilities
        } else if value == 0x54 {
            CommandCode::GetChannelCipherSuites
        } else if value == 0x3b {
            CommandCode::SetSessionPrivilegeLevel
        } else if value == 0x3c {
            CommandCode::CloseSession
        } else {
            CommandCode::Raw(value)
        }
    }

    /// The command that the byte `value` names.
    pub fn from(value: u8) -> (converted: CommandCode)
        ensures
            converted == CommandCode::spec_from(value),
    {
        if value == 0x38 {
            CommandCode::GetChannelAuthCapabilities
        } else if value == 0x54 {
            CommandCode::GetChannelCipherSuites
        } else if value == 0x3b {
            CommandCode::SetSessionPrivilegeLevel
        } else if value == 0x3c {
            CommandCode::CloseSession
        } else {
            CommandCode::Raw(value)
        }
    }

    /// The byte that names this command.
    pub open spec fn spec_to_byte(&self) -> u8 {
        match *self {
            CommandCode::GetChannelAuthCapabilities => 0x38,
            CommandCode::GetChannelCipherSuites => 0x54,
            CommandCode::SetSessionPrivilegeLevel => 0x3b,
            CommandCode::CloseSession => 0x3c,
            CommandCode::Raw(code) => code,
        }
    }

    /// The byte that names this command.
    pub fn to_byte(&self) -> (byte: u8)
        ensures
            byte == self.spec_to_byte(),
    {
        match *self {
            CommandCode::GetChannelAuthCapabilities => 0x38,
            CommandCode::GetChannelCipherSuites => 0x54,
            CommandCode::SetSessionPrivilegeLevel => 0x3b,
            CommandCode::CloseSession => 0x3c,
            CommandCode::Raw(code) => code,
        }
    }
}

/// A command byte read from the wire writes back as the same byte.
pub proof fn lemma_command_code_round_trip(byte: u8)
    ensures
        CommandCode::spec_from(byte).spec_to_byte() == byte,
        CommandCode::spec_from(CommandCode::spec_from(byte).spec_to_byte()) == CommandCode::spec_from(
            byte,
        ),
{
}

/// The command that ends a session.
#[derive(Clone, Copy, Debug, PartialEq, Eq, Structural)]
pub struct CloseSessionCMD(pub u32);

impl CloseSessionCMD {
    /// The command that ends the session with identifier `session_id`.
    pub fn new(session_id: u32) -> (command: CloseSessionCMD)
        ensures
            command == CloseSessionCMD(session_id),
    {
        CloseSessionCMD(session_id)
    }
}

impl IpmiCommand for CloseSessionCMD {
    type Output = ();

    open spec fn spec_netfn(&self) -> NetFn {
        NetFn::App
    }

    open spec fn spec_command(&self) -> CommandCode {
        CommandCode::CloseSession
    }

    /// The session identifier, little-endian.
    open spec fn spec_data(&self) -> Seq<u8> {
        u32_le(self.0)
    }

    open spec fn decodes(&self, data: Seq<u8>, output: ()) -> bool {
        true
    }

    open spec fn refuses(&self, data: Seq<u8>) -> Option<Error> {
        None
    }

    fn netfn(&self) -> (netfn: NetFn) {
        NetFn::App
    }

    fn command(&self) -> (command: CommandCode) {
        CommandCode::CloseSession
    }

    fn payload(&self) -> (payload: Payload) {
        let mut data: Vec<u8> = Vec::new();
        crate::helpers::append_u32_to_vec(&mut data, self.0);
        Payload::IpmiReq(ReqPayload::new(self.netfn(), self.command(), data))
    }

    fn parse(&self, _data: &[u8]) -> (output: Result<(), Error>) {
        Ok(())
    }
}

} // verus!
