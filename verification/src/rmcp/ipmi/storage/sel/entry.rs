//! Entries of the system event log.

use crate::err::{ECommand, EIpmiPayload, EPacket, Error};
use crate::helpers::{le_value, lemma_pow256_values, read_le, read_u16_le, read_u32_le};
use crate::rmcp::ipmi::commands::CommandCode;
use crate::rmcp::ipmi::storage::sdr::sensor_type::SensorType;
use crate::rmcp::ipmi::storage::sdr::{not_enough_data, short_response};
use crate::rmcp::ipmi::storage::sel::event::{
    EventDirection, EventGenerator, EventMessageRevision, EventType,
};
use vstd::prelude::*;

verus! {

/// The length of an entry.
pub const ENTRY_LEN: usize = 16;

/// The identifier of an entry in the log.
#[derive(Clone, Copy, Debug, PartialEq, Eq, Structural)]
pub struct RecordId(pub u16);

/// An entry of the event log.
#[allow(inconsistent_fields)]
#[derive(Clone, Copy, Debug, PartialEq, Eq)]
pub enum Entry {
    /// A system event: record type 0x02.
    System {
        record_id: RecordId,
        timestamp: u32,
        generator_id: EventGenerator,
        event_message_format: EventMessageRevision,
        sensor_type: SensorType,
        sensor_number: u8,
        event_direction: EventDirection,
        event_type: EventType,
        event_data: [u8; 3],
    },
    /// An OEM entry with a timestamp: record types 0xC0 to 0xDF.
    OemTimestamped { record_id: RecordId, ty: u8, timestamp: u32, manufacturer_id: u32, data: [u8; 6] },
    /// An OEM entry without a timestamp: record types 0xE0 to 0xFF.
    OemNotTimestamped { record_id: RecordId, ty: u8, data: [u8; 13] },
}

impl Entry {
    /// The error with which the bytes of an entry are refused, if they are:
    /// an entry has sixteen bytes, and its record type is 0x02 or at least
    /// 0xC0.
    pub open spec fn parse_error(data: Seq<u8>) -> Option<Error> {
        if data.len() < ENTRY_LEN {
            Some(not_enough_data(CommandCode::Raw(0x43), 16, data.len()))
        } else if data[2] != 0x02 && data[2] < 0xC0 {
            Some(
                Error::Packet(
                    EPacket::IpmiPayload(
                        EIpmiPayload::Command(ECommand::UnknownRecordType(data[2])),
                    ),
                ),
            )
        } else {
            None
        }
    }

    /// Whether `entry` is what the first sixteen bytes of `data` hold.
    pub open spec fn parsed_from(entry: Entry, data: Seq<u8>) -> bool {
        let id = RecordId(le_value(data.subrange(0, 2)) as u16);
        let time = le_value(data.subrange(3, 7)) as u32;
        if data[2] == 0x02 {
            entry matches Entry::System {
                record_id,
                timestamp,
                generator_id,
                event_message_format,
                sensor_type,
                sensor_number,
                event_direction,
                event_type,
                event_data,
            } && {
                &&& record_id == id
                &&& timestamp == time
                &&& generator_id == EventGenerator::spec_from(data[7], data[8])
                &&& event_message_format == EventMessageRevision::spec_from(data[9])
                &&& sensor_type == SensorType(data[10])
                &&& sensor_number == data[11]
                &&& event_direction == if data[12] >= 128 {
                    EventDirection::Deassert
                } else {
                    EventDirection::Assert
                }
                &&& event_type == EventType::spec_from((data[12] % 128) as u8)
                &&& event_data@ == data.subrange(13, 16)
            }
        } else if data[2] < 0xE0 {
            entry matches Entry::OemTimestamped {
                record_id,
                ty,
                timestamp,
                manufacturer_id,
                data: oem,
            } && {
                &&& record_id == id
                &&& ty == data[2]
                &&& timestamp == time
                &&& manufacturer_id == le_value(data.subrange(7, 10))
                &&& oem@ == data.subrange(10, 16)
            }
        } else {
            entry matches Entry::OemNotTimestamped { record_id, ty, data: oem } && {
                &&& record_id == id
                &&& ty == data[2]
                &&& oem@ == data.subrange(3, 16)
            }
        }
    }

    /// Parses an entry.
    pub fn parse(data: &[u8]) -> (entry: Result<Entry, Error>)
        ensures
            match entry {
                Ok(e) => Entry::parse_error(data@) is None && Entry::parsed_from(e, data@),
                Err(e) => Entry::parse_error(data@) == Some(e),
            },
    {
        if data.len() < ENTRY_LEN {
            return Err(short_response(CommandCode::Raw(0x43), 16, data.len()));
        }
        let record_id = RecordId(read_u16_le(data, 0));
        let record_type = data[2];
        let timestamp = read_u32_le(data, 3);
        if record_type == 0x02 {
            let event_direction = if data[12] >= 128 {
                EventDirection::Deassert
            } else {
                EventDirection::Assert
            };
            let event_data = [data[13], data[14], data[15]];
            assert(event_data@ =~= data@.subrange(13, 16));
            Ok(
                Entry::System {
                    record_id,
                    timestamp,
                    generator_id: EventGenerator::from(data[7], data[8]),
                    event_message_format: EventMessageRevision::from(data[9]),
                    sensor_type: SensorType::from(data[10]),
                    sensor_number: data[11],
                    event_direction,
                    event_type: EventType::from(data[12] % 128),
                    event_data,
                },
            )
        } else if record_type >= 0xE0 {
            let oem = [
                data[3],
                data[4],
                data[5],
                data[6],
                data[7],
                data[8],
                data[9],
                data[10],
                data[11],
                data[12],
                data[13],
                data[14],
                data[15],
            ];
            assert(oem@ =~= data@.subrange(3, 16));
            Ok(Entry::OemNotTimestamped { record_id, ty: record_type, data: oem })
        } else if record_type >= 0xC0 {
            proof {
                lemma_pow256_values();
            }
            let manufacturer_id = read_le(data, 7, 3) as u32;
            let oem = [data[10], data[11], data[12], data[13], data[14], data[15]];
            assert(oem@ =~= data@.subrange(10, 16));
            Ok(
                Entry::OemTimestamped {
                    record_id,
                    ty: record_type,
                    timestamp,
                    manufacturer_id,
                    data: oem,
                },
            )
        } else {
            Err(
                Error::Packet(
                    EPacket::IpmiPayload(
                        EIpmiPayload::Command(ECommand::UnknownRecordType(record_type)),
                    ),
                ),
            )
        }
    }

    pub open spec fn spec_id(&self) -> u16 {
        match *self {
            Entry::System { record_id, .. } => record_id.0,
            _ => 0,
        }
    }

    /// The identifier of a system event; zero for an OEM entry.
    pub fn id(&self) -> (id: u16)
        ensures
            id == self.spec_id(),
    {
        match self {
            Entry::System { record_id, .. } => record_id.0,
            _ => 0,
        }
    }

    /// The text of a system event and whether the event was asserted.
    pub open spec fn spec_description_with_assetion(&self) -> (&'static str, bool) {
        match *self {
            Entry::System { sensor_type, event_type, event_data, event_direction, .. } => (
                event_type.spec_description(sensor_type.0, event_data@),
                event_direction == EventDirection::Assert,
            ),
            _ => ("unreacheable", false),
        }
    }

    /// The text of a system event and whether the event was asserted; for
    /// an OEM entry there is no text.
    pub fn description_with_assetion(&self) -> (described: (&'static str, bool))
        ensures
            described == self.spec_description_with_assetion(),
    {
        match self {
            Entry::System { sensor_type, event_type, event_data, event_direction, .. } => {
                let asserted = match event_direction {
                    EventDirection::Assert => true,
                    EventDirection::Deassert => false,
                };
                (event_type.description(sensor_type.to_byte(), event_data), asserted)
            },
            _ => ("unreacheable", false),
        }
    }
}

} // verus!
