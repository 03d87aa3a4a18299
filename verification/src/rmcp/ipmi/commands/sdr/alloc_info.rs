//! The command that asks how the repository allocates its space.

use crate::err::Error;
use crate::rmcp::ipmi::commands::CommandCode;
use crate::rmcp::ipmi::payload::netfn::NetFn;
use crate::rmcp::ipmi::payload::request::ReqPayload;
use crate::rmcp::ipmi::IpmiCommand;
use crate::rmcp::packet::Payload;
use vstd::prelude::*;
use crate::helpers::{le_value, read_u16_le};
use crate::rmcp::ipmi::storage::sdr::{not_enough_data, short_response};

verus! {

/// The command that asks for the allocation information of the repository.
#[derive(Clone, Copy, Debug, PartialEq, Eq, Structural)]
pub struct GetAllocInfo;

/// How the repository allocates its space. A count of zero units, or a
/// unit size of zero, means "unspecified" and is given as none.
#[derive(Clone, Copy, Debug, PartialEq, Eq, Structural)]
pub struct AllocInfo {
    pub num_alloc_units: Option<u16>,
    pub alloc_unit_size: Option<u16>,
    pub num_free_units: u16,
    pub largest_free_blk: u16,
    pub max_record_size: u8,
}

/// A 16-bit count, where zero means that there is none.
pub open spec fn non_zero(value: u16) -> Option<u16> {
    if value == 0 {
        None
    } else {
        Some(value)
    }
}

fn non_zero_of(value: u16) -> (count: Option<u16>)
    ensures
        count == non_zero(value),
{
    if value == 0 {
        None
    } else {
        Some(value)
    }
}

impl AllocInfo {
    /// The allocation information that the first nine bytes of `data` hold.
    pub open spec fn spec_parse(data: Seq<u8>) -> AllocInfo {
        AllocInfo {
            num_alloc_units: non_zero(le_value(data.subrange(0, 2)) as u16),
            alloc_unit_size: non_zero(le_value(data.subrange(2, 4)) as u16),
            num_free_units: le_value(data.subrange(4, 6)) as u16,
            largest_free_blk: le_value(data.subrange(6, 8)) as u16,
            max_record_size: data[8],
        }
    }
}

impl IpmiCommand for GetAllocInfo {
    type Output = AllocInfo;

    open spec fn spec_netfn(&self) -> NetFn {
        NetFn::Storage
    }

    open spec fn spec_command(&self) -> CommandCode {
        CommandCode::Raw(0x21)
    }

    open spec fn spec_data(&self) -> Seq<u8> {
        Seq::<u8>::empty()
    }

    open spec fn decodes(&self, data: Seq<u8>, output: AllocInfo) -> bool {
        output == AllocInfo::spec_parse(data)
    }

    open spec fn refuses(&self, data: Seq<u8>) -> Option<Error> {
        if data.len() < 9 {
            Some(not_enough_data(CommandCode::Raw(0x21), 9, data.len()))
        } else {
            None
        }
    }

    fn netfn(&self) -> (netfn: NetFn) {
        NetFn::Storage
    }

    fn command(&self) -> (command: CommandCode) {
        CommandCode::Raw(0x21)
    }

    fn payload(&self) -> (payload: Payload) {
        Payload::IpmiReq(ReqPayload::new(self.netfn(), self.command(), Vec::new()))
    }

    fn parse(&self, data: &[u8]) -> (output: Result<AllocInfo, Error>) {
        if data.len() < 9 {
            return Err(short_response(self.command(), 9, data.len()));
        }
        Ok(
            AllocInfo {
                num_alloc_units: non_zero_of(read_u16_le(data, 0)),
                alloc_unit_size: non_zero_of(read_u16_le(data, 2)),
                num_free_units: read_u16_le(data, 4),
                largest_free_blk: read_u16_le(data, 6),
                max_record_size: data[8],
            },
        )
    }
}

} // verus!
