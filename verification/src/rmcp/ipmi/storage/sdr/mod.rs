//! Sensor data records.

pub mod address;
pub mod capabilities;
pub mod common;
pub mod compact_sensor_record;
pub mod event_reading_type_code;
pub mod full_sensor_record;
pub mod sensor;
pub mod sensor_type;
pub mod units;

pub use address::{Address, Channel, ChannelNumber};
pub use capabilities::{
    EventKind, HysteresisCapability, SensorCapabilities, Threshold, ThresholdAccessCapability,
    ThresholdAssertEventMask, ThresholdKind, Thresholds,
};
pub use common::{
    EntityInstance, EntityRelativeTo, IdSettled, IdUnset, SensorInitialization, SensorRecordCommon,
};
pub use compact_sensor_record::CompactSensorRecord;
pub use event_reading_type_code::{EventReading, EventReadingTypeCodes};
pub use full_sensor_record::FullSensorRecord;
pub use sensor::{Direction, Linearization, SensorId, SensorKey, SensorNumber, SensorOwner};
pub use sensor_type::{SensorType, Unit};
pub use units::{DataFormat, ModifierUnit, RateUnit, SensorUnits};

use crate::err::{ECommand, ECommandCode, EIpmiPayload, EPacket, Error};
use crate::helpers::{copy_range, le_value, read_u16_le};
use crate::rmcp::ipmi::commands::CommandCode;
use crate::rmcp::ipmi::storage::sdr::common::SensorRecordCommonView;
use crate::rmcp::ipmi::storage::sdr::compact_sensor_record::CompactSensorRecordView;
use crate::rmcp::ipmi::storage::sdr::full_sensor_record::FullSensorRecordView;
use crate::rmcp::ipmi::storage::sdr::sensor::SensorIdView;
use vstd::prelude::*;

verus! {

/// What full and compact sensor records have in common.
pub trait SensorRecord {
    spec fn spec_common(&self) -> SensorRecordCommonView;

    spec fn spec_direction(&self) -> Direction;

    /// The common part of the record.
    fn common(&self) -> (common: &SensorRecordCommon<IdSettled>)
        ensures
            common@ == self.spec_common(),
    ;

    /// Whether the sensor measures an input or an output.
    fn direction(&self) -> (direction: Direction)
        ensures
            direction == self.spec_direction(),
    ;

    /// The capabilities of the sensor.
    fn capabilities(&self) -> (capabilities: &SensorCapabilities)
        ensures
            *capabilities == self.spec_common().capabilities,
    {
        &self.common().capabilities
    }

    /// The name of the sensor.
    fn id_string(&self) -> (id: &SensorId)
        ensures
            id@ == self.spec_common().sensor_id,
    {
        &self.common().sensor_id
    }

    /// The number of the sensor.
    fn sensor_number(&self) -> (number: SensorNumber)
        ensures
            number == self.spec_common().key.sensor_number,
    {
        self.common().key.sensor_number
    }

    /// The entity the sensor monitors.
    fn entity_id(&self) -> (entity: u8)
        ensures
            entity == self.spec_common().entity_id,
    {
        self.common().entity_id
    }

    /// The key of the sensor.
    fn key_data(&self) -> (key: &SensorKey)
        ensures
            *key == self.spec_common().key,
    {
        &self.common().key
    }
}

/// The identifier of a record in the repository.
#[derive(Clone, Copy, Debug, PartialEq, Eq, Structural)]
pub struct RecordId(pub u16);

impl RecordId {
    /// The identifier with which an iteration over the repository starts.
    pub fn first() -> (id: RecordId)
        ensures
            id == RecordId(0),
    {
        RecordId(0)
    }

    /// The identifier that ends an iteration over the repository.
    pub fn last() -> (id: RecordId)
        ensures
            id == RecordId(0xFFFF),
    {
        RecordId(0xFFFF)
    }

    pub fn new_raw(value: u16) -> (id: RecordId)
        ensures
            id == RecordId(value),
    {
        RecordId(value)
    }

    /// Whether this is the identifier with which an iteration starts.
    pub fn is_first(&self) -> (first: bool)
        ensures
            first == (self.0 == 0),
    {
        self.0 == 0
    }

    /// Whether this is the identifier that ends an iteration.
    pub fn is_last(&self) -> (last: bool)
        ensures
            last == (self.0 == 0xFFFF),
    {
        self.0 == 0xFFFF
    }

    pub fn value(&self) -> (value: u16)
        ensures
            value == self.0,
    {
        self.0
    }
}

/// The header of a record.
#[derive(Clone, Copy, Debug, PartialEq, Eq, Structural)]
pub struct RecordHeader {
    pub id: RecordId,
    pub sdr_version_major: u8,
    pub sdr_version_minor: u8,
}

/// What a record holds.
#[derive(Clone, Debug)]
pub enum RecordContents {
    FullSensor(FullSensorRecord),
    CompactSensor(CompactSensorRecord),
    Unknown { ty: u8, data: Vec<u8> },
}

/// The contents of a record as a mathematical value.
pub enum RecordContentsView {
    FullSensor(FullSensorRecordView),
    CompactSensor(CompactSensorRecordView),
    Unknown { ty: u8, data: Seq<u8> },
}

impl View for RecordContents {
    type V = RecordContentsView;

    open spec fn view(&self) -> RecordContentsView {
        match *self {
            RecordContents::FullSensor(r) => RecordContentsView::FullSensor(r@),
            RecordContents::CompactSensor(r) => RecordContentsView::CompactSensor(r@),
            RecordContents::Unknown { ty, data } => RecordContentsView::Unknown { ty, data: data@ },
        }
    }
}

/// A sensor data record.
#[derive(Clone, Debug)]
pub struct SdrRecord {
    pub header: RecordHeader,
    pub contents: RecordContents,
}

/// A sensor data record as a mathematical value.
pub struct SdrRecordView {
    pub header: RecordHeader,
    pub contents: RecordContentsView,
}

impl View for SdrRecord {
    type V = SdrRecordView;

    open spec fn view(&self) -> SdrRecordView {
        SdrRecordView { header: self.header, contents: self.contents@ }
    }
}

/// The error for a response that is shorter than its command requires.
pub open spec fn not_enough_data(command: CommandCode, expected_len: u8, get_len: nat) -> Error {
    Error::Packet(
        EPacket::IpmiPayload(
            EIpmiPayload::Command(
                ECommand::NotEnoughData(
                    ECommandCode { command, expected_len, get_len: get_len as usize },
                ),
            ),
        ),
    )
}

/// Builds the error for a response that is shorter than its command
/// requires.
pub fn short_response(command: CommandCode, expected_len: u8, get_len: usize) -> (error: Error)
    ensures
        error == not_enough_data(command, expected_len, get_len as nat),
{
    Error::Packet(
        EPacket::IpmiPayload(
            EIpmiPayload::Command(
                ECommand::NotEnoughData(ECommandCode::new(command, expected_len, get_len)),
            ),
        ),
    )
}

impl SdrRecordView {
    /// The error with which a record is refused, if it is: a record has a
    /// header of five bytes, whose last byte is the length of what follows.
    pub open spec fn parse_error(data: Seq<u8>, cmd: CommandCode) -> Option<Error> {
        if data.len() < 5 {
            Some(not_enough_data(cmd, 5, data.len()))
        } else if data.len() - 5 != data[4] {
            Some(not_enough_data(CommandCode::Raw(0x23), data[4], data.len()))
        } else if data[3] == 0x01 {
            FullSensorRecordView::parse_error(data.subrange(5, data.len() as int))
        } else if data[3] == 0x02 {
            CompactSensorRecordView::parse_error(data.subrange(5, data.len() as int))
        } else {
            None
        }
    }

    /// Whether `record` is what `data` hold: the identifier, the version
    /// with its major part in the low half of the third byte, and the
    /// contents by the record type in the fourth byte.
    pub open spec fn parsed_from(record: SdrRecordView, data: Seq<u8>) -> bool {
        let record_data = data.subrange(5, data.len() as int);
        &&& record.header == (RecordHeader {
            id: RecordId(le_value(data.subrange(0, 2)) as u16),
            sdr_version_major: (data[2] % 16) as u8,
            sdr_version_minor: (data[2] / 16) as u8,
        })
        &&& if data[3] == 0x01 {
            record.contents matches RecordContentsView::FullSensor(full)
                && FullSensorRecordView::parsed_from(full, record_data)
        } else if data[3] == 0x02 {
            record.contents matches RecordContentsView::CompactSensor(compact)
                && CompactSensorRecordView::parsed_from(compact, record_data)
        } else {
            record.contents == (RecordContentsView::Unknown { ty: data[3], data: record_data })
        }
    }

    pub open spec fn spec_id(&self) -> Option<SensorIdView> {
        match self.contents {
            RecordContentsView::FullSensor(full) => Some(full.common.sensor_id),
            RecordContentsView::CompactSensor(compact) => Some(compact.common.sensor_id),
            RecordContentsView::Unknown { .. } => None,
        }
    }

    pub open spec fn spec_common(&self) -> Option<SensorRecordCommonView> {
        match self.contents {
            RecordContentsView::FullSensor(full) => Some(full.common),
            RecordContentsView::CompactSensor(compact) => Some(compact.common),
            RecordContentsView::Unknown { .. } => None,
        }
    }
}

impl SdrRecord {
    /// The common part of a sensor record; none for a record of another
    /// type.
    pub fn common_data(&self) -> (common: Option<&SensorRecordCommon<IdSettled>>)
        ensures
            match (common, self@.spec_common()) {
                (Some(c), Some(v)) => c@ == v,
                (None, None) => true,
                _ => false,
            },
    {
        match &self.contents {
            RecordContents::FullSensor(s) => Some(s.common()),
            RecordContents::CompactSensor(s) => Some(s.common()),
            RecordContents::Unknown { .. } => None,
        }
    }

    /// The full sensor record, if this is one.
    pub fn full_sensor(&self) -> (full: Option<&FullSensorRecord>)
        ensures
            match full {
                Some(f) => self@.contents == RecordContentsView::FullSensor(f@),
                None => !(self@.contents is FullSensor),
            },
    {
        match &self.contents {
            RecordContents::FullSensor(full_sensor) => Some(full_sensor),
            _ => None,
        }
    }

    /// The compact sensor record, if this is one.
    pub fn compact_sensor(&self) -> (compact: Option<&CompactSensorRecord>)
        ensures
            match compact {
                Some(c) => self@.contents == RecordContentsView::CompactSensor(c@),
                None => !(self@.contents is CompactSensor),
            },
    {
        match &self.contents {
            RecordContents::CompactSensor(compact_sensor) => Some(compact_sensor),
            _ => None,
        }
    }

    /// Parses a record as the command `cmd` returned it.
    pub fn parse(data: &[u8], cmd: CommandCode) -> (record: Result<SdrRecord, Error>)
        ensures
            match record {
                Ok(r) => SdrRecordView::parse_error(data@, cmd) is None
                    && SdrRecordView::parsed_from(r@, data@),
                Err(e) => SdrRecordView::parse_error(data@, cmd) == Some(e),
            },
    {
        if data.len() < 5 {
            return Err(short_response(cmd, 5, data.len()));
        }
        let record_id = RecordId::new_raw(read_u16_le(data, 0));
        let sdr_version_min = data[2] / 16;
        let sdr_version_maj = data[2] % 16;
        let record_type = data[3];
        let record_length = data[4];
        let record_data = vstd::slice::slice_subrange(data, 5, data.len());
        if record_data.len() != record_length as usize {
            return Err(short_response(CommandCode::Raw(0x23), record_length, data.len()));
        }
        let contents = if record_type == 0x01 {
            match FullSensorRecord::parse(record_data) {
                Err(e) => {
                    return Err(e);
                },
                Ok(full) => RecordContents::FullSensor(full),
            }
        } else if record_type == 0x02 {
            match CompactSensorRecord::parse(record_data) {
                Err(e) => {
                    return Err(e);
                },
                Ok(compact) => RecordContents::CompactSensor(compact),
            }
        } else {
            RecordContents::Unknown { ty: record_type, data: copy_range(data, 5, data.len()) }
        };
        Ok(
            SdrRecord {
                header: RecordHeader {
                    id: record_id,
                    sdr_version_minor: sdr_version_min,
                    sdr_version_major: sdr_version_maj,
                },
                contents,
            },
        )
    }

    /// The name of the sensor; none for a record of another type.
    pub fn id(&self) -> (id: Option<&SensorId>)
        ensures
            match (id, self@.spec_id()) {
                (Some(i), Some(v)) => i@ == v,
                (None, None) => true,
                _ => false,
            },
    {
        match &self.contents {
            RecordContents::FullSensor(full) => Some(full.id_string()),
            RecordContents::CompactSensor(compact) => Some(compact.id_string()),
            RecordContents::Unknown { .. } => None,
        }
    }

    /// The number of the sensor; none for a record of another type.
    pub fn sensor_number(&self) -> (number: Option<SensorNumber>)
        ensures
            match (number, self@.spec_common()) {
                (Some(n), Some(v)) => n == v.key.sensor_number,
                (None, None) => true,
                _ => false,
            },
    {
        match &self.contents {
            RecordContents::FullSensor(full) => Some(full.sensor_number()),
            RecordContents::CompactSensor(compact) => Some(compact.sensor_number()),
            RecordContents::Unknown { .. } => None,
        }
    }
}

} // verus!
