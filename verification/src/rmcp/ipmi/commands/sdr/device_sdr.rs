//! The command that reads one record of the repository.

use crate::err::Error;
use crate::rmcp::ipmi::commands::CommandCode;
use crate::rmcp::ipmi::payload::netfn::NetFn;
use crate::rmcp::ipmi::payload::request::ReqPayload;
use crate::rmcp::ipmi::IpmiCommand;
use crate::rmcp::packet::Payload;
use vstd::prelude::*;
use crate::helpers::{le_value, read_u16_le};
use crate::rmcp::ipmi::storage::sdr::{not_enough_data, short_response};
use crate::helpers::{append_u16_to_vec, u16_le};
use crate::rmcp::ipmi::storage::sdr::{RecordId, SdrRecord, SdrRecordView};

verus! {

/// The command that reads the record with a given identifier.
#[derive(Clone, Copy, Debug, PartialEq, Eq, Structural)]
pub struct GetDeviceSdrCommand {
    /// The reservation under which the record is read, if any.
    pub reservation_id: Option<u16>,
    pub record_id: RecordId,
    /// Where in the record the read starts.
    pub offset: u8,
    /// How many bytes are read; none for the whole record.
    pub bytes_to_read: Option<u8>,
}

/// A record and the identifier of the one after it.
#[derive(Clone, Debug)]
pub struct RecordInfo {
    pub next_entry: RecordId,
    pub record: SdrRecord,
}

/// A record and the identifier of the one after it, as a mathematical
/// value.
pub struct RecordInfoView {
    pub next_entry: RecordId,
    pub record: SdrRecordView,
}

impl View for RecordInfo {
    type V = RecordInfoView;

    open spec fn view(&self) -> RecordInfoView {
        RecordInfoView { next_entry: self.next_entry, record: self.record@ }
    }
}

impl GetDeviceSdrCommand {
    /// The command that reads the whole record `record_id`.
    pub fn new(reservation_id: Option<u16>, record_id: RecordId) -> (command: GetDeviceSdrCommand)
        ensures
            command == (GetDeviceSdrCommand {
                reservation_id,
                record_id,
                offset: 0,
                bytes_to_read: None,
            }),
    {
        GetDeviceSdrCommand { reservation_id, record_id, offset: 0, bytes_to_read: None }
    }
}

impl IpmiCommand for GetDeviceSdrCommand {
    type Output = RecordInfo;

    open spec fn spec_netfn(&self) -> NetFn {
        NetFn::Storage
    }

    open spec fn spec_command(&self) -> CommandCode {
        CommandCode::Raw(0x23)
    }

    open spec fn spec_data(&self) -> Seq<u8> {
        u16_le(
            match self.reservation_id {
                Some(id) => id,
                None => 0,
            },
        ) + u16_le(self.record_id.0) + seq![
            self.offset,
            match self.bytes_to_read {
                Some(count) => count,
                None => 0xff,
            },
        ]
    }

    open spec fn decodes(&self, data: Seq<u8>, output: RecordInfo) -> bool {
        &&& output.next_entry == RecordId(le_value(data.subrange(0, 2)) as u16)
        &&& SdrRecordView::parsed_from(output.record@, data.subrange(2, data.len() as int))
    }

    open spec fn refuses(&self, data: Seq<u8>) -> Option<Error> {
        if data.len() < 2 {
            Some(not_enough_data(CommandCode::Raw(0x23), 2, data.len()))
        } else {
            SdrRecordView::parse_error(data.subrange(2, data.len() as int), CommandCode::Raw(0x23))
        }
    }

    fn netfn(&self) -> (netfn: NetFn) {
        NetFn::Storage
    }

    fn command(&self) -> (command: CommandCode) {
        CommandCode::Raw(0x23)
    }

    fn payload(&self) -> (payload: Payload) {
        let mut data: Vec<u8> = Vec::new();
        let reservation = match self.reservation_id {
            Some(id) => id,
            None => 0,
        };
        append_u16_to_vec(&mut data, reservation);
        append_u16_to_vec(&mut data, self.record_id.value());
        data.push(self.offset);
        data.push(
            match self.bytes_to_read {
                Some(count) => count,
                None => 0xff,
            },
        );
        assert(data@ =~= self.spec_data());
        Payload::IpmiReq(ReqPayload::new(self.netfn(), self.command(), data))
    }

    fn parse(&self, data: &[u8]) -> (output: Result<RecordInfo, Error>) {
        if data.len() < 2 {
            return Err(short_response(self.command(), 2, data.len()));
        }
        let next_entry = RecordId::new_raw(read_u16_le(data, 0));
        let rest = vstd::slice::slice_subrange(data, 2, data.len());
        match SdrRecord::parse(rest, self.command()) {
            Err(e) => Err(e),
            Ok(record) => Ok(RecordInfo { next_entry, record }),
        }
    }
}

} // verus!
