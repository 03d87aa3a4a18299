//! The command that reserves the repository for a reader.

use crate::err::Error;
use crate::rmcp::ipmi::commands::CommandCode;
use crate::rmcp::ipmi::payload::netfn::NetFn;
use crate::rmcp::ipmi::payload::request::ReqPayload;
use crate::rmcp::ipmi::IpmiCommand;
use crate::rmcp::packet::Payload;
use vstd::prelude::*;
use crate::helpers::{le_value, read_u16_le};
use crate::rmcp::ipmi::storage::sdr::{not_enough_data, short_response};

verus! {

/// The command that reserves the repository.
#[derive(Clone, Copy, Debug, PartialEq, Eq, Structural)]
pub struct ReserveSDRRepositoryCommand;

/// The reservation a reader holds.
#[derive(Clone, Copy, Debug, PartialEq, Eq, Structural)]
pub struct ReserveSDRRepository {
    pub reservation_id: u16,
}

impl IpmiCommand for ReserveSDRRepositoryCommand {
    type Output = ReserveSDRRepository;

    open spec fn spec_netfn(&self) -> NetFn {
        NetFn::Storage
    }

    open spec fn spec_command(&self) -> CommandCode {
        CommandCode::Raw(0x22)
    }

    open spec fn spec_data(&self) -> Seq<u8> {
        Seq::<u8>::empty()
    }

    open spec fn decodes(&self, data: Seq<u8>, output: ReserveSDRRepository) -> bool {
        output == (ReserveSDRRepository { reservation_id: le_value(data.subrange(0, 2)) as u16 })
    }

    open spec fn refuses(&self, data: Seq<u8>) -> Option<Error> {
        if data.len() < 2 {
            Some(not_enough_data(CommandCode::Raw(0x22), 2, data.len()))
        } else {
            None
        }
    }

    fn netfn(&self) -> (netfn: NetFn) {
        NetFn::Storage
    }

    fn command(&self) -> (command: CommandCode) {
        CommandCode::Raw(0x22)
    }

    fn payload(&self) -> (payload: Payload) {
        Payload::IpmiReq(ReqPayload::new(self.netfn(), self.command(), Vec::new()))
    }

    fn parse(&self, data: &[u8]) -> (output: Result<ReserveSDRRepository, Error>) {
        if data.len() < 2 {
            return Err(short_response(CommandCode::Raw(0x22), 2, data.len()));
        }
        Ok(ReserveSDRRepository { reservation_id: read_u16_le(data, 0) })
    }
}

} // verus!
