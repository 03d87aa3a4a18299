//! The command that asks what the repository holds.

use crate::err::Error;
use crate::rmcp::ipmi::commands::CommandCode;
use crate::rmcp::ipmi::payload::netfn::NetFn;
use crate::rmcp::ipmi::payload::request::ReqPayload;
use crate::rmcp::ipmi::IpmiCommand;
use crate::rmcp::packet::Payload;
use vstd::prelude::*;
use crate::helpers::{le_value, read_u16_le};
use crate::rmcp::ipmi::storage::sdr::{not_enough_data, short_response};

verus! {

/// The command that asks for the state of the repository.
#[derive(Clone, Copy, Debug, PartialEq, Eq, Structural)]
pub struct GetSDRRepositoryInfo;

/// The version of the repository and the number of its records.
#[derive(Clone, Copy, Debug, PartialEq, Eq, Structural)]
pub struct SDRRepositoryInfo {
    pub sdr_version: u8,
    pub record_count: u16,
}

impl SDRRepositoryInfo {
    /// The state that the first three bytes of `data` hold.
    pub open spec fn spec_parse(data: Seq<u8>) -> SDRRepositoryInfo {
        SDRRepositoryInfo {
            sdr_version: data[0],
            record_count: le_value(data.subrange(1, 3)) as u16,
        }
    }
}

impl IpmiCommand for GetSDRRepositoryInfo {
    type Output = SDRRepositoryInfo;

    open spec fn spec_netfn(&self) -> NetFn {
        NetFn::Storage
    }

    open spec fn spec_command(&self) -> CommandCode {
        CommandCode::Raw(0x20)
    }

    open spec fn spec_data(&self) -> Seq<u8> {
        Seq::<u8>::empty()
    }

    open spec fn decodes(&self, data: Seq<u8>, output: SDRRepositoryInfo) -> bool {
        output == SDRRepositoryInfo::spec_parse(data)
    }

    open spec fn refuses(&self, data: Seq<u8>) -> Option<Error> {
        if data.len() < 14 {
            Some(not_enough_data(CommandCode::Raw(0x20), 14, data.len()))
        } else {
            None
        }
    }

    fn netfn(&self) -> (netfn: NetFn) {
        NetFn::Storage
    }

    fn command(&self) -> (command: CommandCode) {
        CommandCode::Raw(0x20)
    }

    fn payload(&self) -> (payload: Payload) {
        Payload::IpmiReq(ReqPayload::new(self.netfn(), self.command(), Vec::new()))
    }

    fn parse(&self, data: &[u8]) -> (output: Result<SDRRepositoryInfo, Error>) {
        if data.len() < 14 {
            return Err(short_response(CommandCode::Raw(0x20), 14, data.len()));
        }
        Ok(SDRRepositoryInfo { sdr_version: data[0], record_count: read_u16_le(data, 1) })
    }
}

} // verus!
