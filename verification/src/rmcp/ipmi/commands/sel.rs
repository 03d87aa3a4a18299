//! Commands on the system event log.

use crate::err::Error;
use crate::rmcp::ipmi::commands::CommandCode;
use crate::rmcp::ipmi::payload::netfn::NetFn;
use crate::rmcp::ipmi::payload::request::ReqPayload;
use crate::rmcp::ipmi::IpmiCommand;
use crate::rmcp::packet::Payload;
use vstd::prelude::*;
use crate::helpers::{le_value, read_u16_le};
use crate::rmcp::ipmi::storage::sdr::{not_enough_data, short_response};
use crate::helpers::{append_u16_to_vec, copy_range, read_u32_le, u16_le};
use crate::rmcp::ipmi::storage::sel::entry::Entry;

verus! {

/// The command that asks for the state of the event log.
#[derive(Clone, Copy, Debug, PartialEq, Eq, Structural)]
pub struct GetSelInfo;

/// The state of the event log.
#[derive(Clone, Copy, Debug, PartialEq, Eq, Structural)]
pub struct SelInfo {
    pub sel_version: u8,
    pub entries: u16,
    pub free_space: u16,
    pub last_add_time: u32,
    pub last_del_time: u32,
    pub support_alloc_info: bool,
    pub support_reserve: bool,
    pub support_partial_add: bool,
    pub support_delete: bool,
    pub overflow: bool,
}

impl SelInfo {
    /// The state that the first fourteen bytes of `data` hold.
    pub open spec fn spec_parse(data: Seq<u8>) -> SelInfo {
        SelInfo {
            sel_version: data[0],
            entries: le_value(data.subrange(1, 3)) as u16,
            free_space: le_value(data.subrange(3, 5)) as u16,
            last_add_time: le_value(data.subrange(5, 9)) as u32,
            last_del_time: le_value(data.subrange(9, 13)) as u32,
            support_alloc_info: data[13] & 0x01 != 0,
            support_reserve: data[13] & 0x02 != 0,
            support_partial_add: data[13] & 0x04 != 0,
            support_delete: data[13] & 0x08 != 0,
            overflow: data[13] & 0x80 != 0,
        }
    }
}

impl IpmiCommand for GetSelInfo {
    type Output = SelInfo;

    open spec fn spec_netfn(&self) -> NetFn {
        NetFn::Storage
    }

    open spec fn spec_command(&self) -> CommandCode {
        CommandCode::Raw(0x40)
    }

    open spec fn spec_data(&self) -> Seq<u8> {
        Seq::<u8>::empty()
    }

    open spec fn decodes(&self, data: Seq<u8>, output: SelInfo) -> bool {
        output == SelInfo::spec_parse(data)
    }

    open spec fn refuses(&self, data: Seq<u8>) -> Option<Error> {
        if data.len() < 14 {
            Some(not_enough_data(CommandCode::Raw(0x40), 14, data.len()))
        } else {
            None
        }
    }

    fn netfn(&self) -> (netfn: NetFn) {
        NetFn::Storage
    }

    fn command(&self) -> (command: CommandCode) {
        CommandCode::Raw(0x40)
    }

    fn payload(&self) -> (payload: Payload) {
        Payload::IpmiReq(ReqPayload::new(self.netfn(), self.command(), Vec::new()))
    }

    fn parse(&self, data: &[u8]) -> (output: Result<SelInfo, Error>) {
        if data.len() < 14 {
            return Err(short_response(CommandCode::Raw(0x40), 14, data.len()));
        }
        let support = data[13];
        Ok(
            SelInfo {
                sel_version: data[0],
                entries: read_u16_le(data, 1),
                free_space: read_u16_le(data, 3),
                last_add_time: read_u32_le(data, 5),
                last_del_time: read_u32_le(data, 9),
                support_alloc_info: support & 0x01 != 0,
                support_reserve: support & 0x02 != 0,
                support_partial_add: support & 0x04 != 0,
                support_delete: support & 0x08 != 0,
                overflow: support & 0x80 != 0,
            },
        )
    }
}

/// An entry of the event log, the identifier of the entry after it, and
/// the bytes the BMC returned.
#[derive(Clone, Debug, PartialEq, Eq)]
pub struct SelRecord {
    pub next_record_id: [u8; 2],
    pub entry: Entry,
    pub raw_data: Vec<u8>,
}

/// The command that reads one entry of the event log.
#[derive(Clone, Copy, Debug, PartialEq, Eq, Structural)]
pub struct GetSelEntry {
    /// The reservation under which the entry is read; zero for none.
    pub reservation_id: u16,
    pub record_id: u16,
    /// Where in the entry the read starts.
    pub offset: u8,
    /// How many bytes are read; 0xFF for the whole entry.
    pub bytes_to_read: u8,
}

impl GetSelEntry {
    /// The command that reads the whole entry `record_id` from `offset` on.
    pub fn new(reservation_id: u16, record_id: u16, offset: u8) -> (command: GetSelEntry)
        ensures
            command == (GetSelEntry { reservation_id, record_id, offset, bytes_to_read: 0xff }),
    {
        GetSelEntry { reservation_id, record_id, offset, bytes_to_read: 0xff }
    }
}

impl IpmiCommand for GetSelEntry {
    type Output = SelRecord;

    open spec fn spec_netfn(&self) -> NetFn {
        NetFn::Storage
    }

    open spec fn spec_command(&self) -> CommandCode {
        CommandCode::Raw(0x43)
    }

    open spec fn spec_data(&self) -> Seq<u8> {
        u16_le(self.reservation_id) + u16_le(self.record_id) + seq![self.offset, self.bytes_to_read]
    }

    open spec fn decodes(&self, data: Seq<u8>, output: SelRecord) -> bool {
        &&& output.next_record_id@ == data.subrange(0, 2)
        &&& Entry::parsed_from(output.entry, data.subrange(2, data.len() as int))
        &&& output.raw_data@ == data
    }

    open spec fn refuses(&self, data: Seq<u8>) -> Option<Error> {
        if data.len() < 2 {
            Some(not_enough_data(CommandCode::Raw(0x43), 2, data.len()))
        } else {
            Entry::parse_error(data.subrange(2, data.len() as int))
        }
    }

    fn netfn(&self) -> (netfn: NetFn) {
        NetFn::Storage
    }

    fn command(&self) -> (command: CommandCode) {
        CommandCode::Raw(0x43)
    }

    fn payload(&self) -> (payload: Payload) {
        let mut data: Vec<u8> = Vec::new();
        append_u16_to_vec(&mut data, self.reservation_id);
        append_u16_to_vec(&mut data, self.record_id);
        data.push(self.offset);
        data.push(self.bytes_to_read);
        assert(data@ =~= self.spec_data());
        Payload::IpmiReq(ReqPayload::new(self.netfn(), self.command(), data))
    }

    fn parse(&self, data: &[u8]) -> (output: Result<SelRecord, Error>) {
        if data.len() < 2 {
            return Err(short_response(CommandCode::Raw(0x43), 2, data.len()));
        }
        let rest = vstd::slice::slice_subrange(data, 2, data.len());
        let entry = match Entry::parse(rest) {
            Err(e) => {
                return Err(e);
            },
            Ok(entry) => entry,
        };
        let next_record_id = [data[0], data[1]];
        assert(next_record_id@ =~= data@.subrange(0, 2));
        let raw_data = copy_range(data, 0, data.len());
        assert(data@.subrange(0, data@.len() as int) =~= data@);
        Ok(SelRecord { next_record_id, entry, raw_data })
    }
}

} // verus!
