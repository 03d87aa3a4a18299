//! The part that full and compact sensor records share.

use crate::err::{ECommand, EIpmiPayload, EPacket, EParse, Error};
use crate::helpers::{le_value, read_u16_le};
use crate::rmcp::ipmi::storage::sdr::capabilities::SensorCapabilities;
use crate::rmcp::ipmi::storage::sdr::event_reading_type_code::EventReadingTypeCodes;
use crate::rmcp::ipmi::storage::sdr::sensor::{parse_failure, SensorId, SensorIdView, SensorKey};
use crate::rmcp::ipmi::storage::sdr::sensor_type::SensorType;
use crate::rmcp::ipmi::storage::sdr::units::SensorUnits;
use vstd::prelude::*;

verus! {

/// Marks a record whose name is not read yet.
#[derive(Clone, Copy, Debug)]
pub struct IdUnset;

/// Marks a record whose name is read.
#[derive(Clone, Copy, Debug)]
pub struct IdSettled;

/// The length of the common part of a sensor record.
pub const COMMON_LEN: usize = 18;

/// What the initialisation agent does with a sensor.
#[derive(Clone, Copy, Debug, PartialEq, Eq, Structural)]
pub struct SensorInitialization {
    pub settable: bool,
    pub scanning: bool,
    pub events: bool,
    pub thresholds: bool,
    pub hysteresis: bool,
    pub sensor_type: bool,
    pub event_generation_enabled_on_startup: bool,
    pub sensor_scanning_enabled_on_startup: bool,
}

impl SensorInitialization {
    /// The flags of the initialisation byte, from bit 7 down to bit 0; the
    /// hysteresis flag follows the thresholds flag.
    pub open spec fn spec_from(value: u8) -> SensorInitialization {
        SensorInitialization {
            settable: value & 0x80 == 0x80,
            scanning: value & 0x40 == 0x40,
            events: value & 0x20 == 0x20,
            thresholds: value & 0x10 == 0x10,
            hysteresis: value & 0x10 == 0x10,
            sensor_type: value & 0x04 == 0x04,
            event_generation_enabled_on_startup: value & 0x02 == 0x02,
            sensor_scanning_enabled_on_startup: value & 0x01 == 0x01,
        }
    }

    /// Reads the initialisation byte.
    pub fn from(value: u8) -> (initialization: SensorInitialization)
        ensures
            initialization == SensorInitialization::spec_from(value),
    {
        SensorInitialization {
            settable: value & 0x80 == 0x80,
            scanning: value & 0x40 == 0x40,
            events: value & 0x20 == 0x20,
            thresholds: value & 0x10 == 0x10,
            hysteresis: value & 0x10 == 0x10,
            sensor_type: value & 0x04 == 0x04,
            event_generation_enabled_on_startup: value & 0x02 == 0x02,
            sensor_scanning_enabled_on_startup: value & 0x01 == 0x01,
        }
    }
}

/// What an entity instance number is relative to.
#[derive(Clone, Copy, Debug, PartialEq, Eq, Structural)]
pub enum EntityRelativeTo {
    System,
    Device,
}

/// The instance of the entity a sensor monitors.
#[derive(Clone, Copy, Debug, PartialEq, Eq, Structural)]
pub enum EntityInstance {
    Physical { relative: EntityRelativeTo, instance_number: u8 },
    LogicalContainer { relative: EntityRelativeTo, instance_number: u8 },
}

impl EntityInstance {
    /// The instance that the byte `value` names: the number is in the low
    /// seven bits, relative to the system below 0x60 and to the device from
    /// there; the top bit marks a logical container.
    pub open spec fn spec_from(value: u8) -> EntityInstance {
        let instance_number = (value % 128) as u8;
        let relative = if instance_number < 0x60 {
            EntityRelativeTo::System
        } else {
            EntityRelativeTo::Device
        };
        if value >= 128 {
            EntityInstance::LogicalContainer { relative, instance_number }
        } else {
            EntityInstance::Physical { relative, instance_number }
        }
    }

    /// Reads the entity instance byte.
    pub fn from(value: u8) -> (instance: EntityInstance)
        ensures
            instance == EntityInstance::spec_from(value),
    {
        let instance_number = value % 128;
        let relative = if instance_number < 0x60 {
            EntityRelativeTo::System
        } else {
            EntityRelativeTo::Device
        };
        if value >= 128 {
            EntityInstance::LogicalContainer { relative, instance_number }
        } else {
            EntityInstance::Physical { relative, instance_number }
        }
    }
}

/// The common part of a sensor record. The marker says whether the name of
/// the sensor is read yet.
#[derive(Clone, Debug)]
pub struct SensorRecordCommon<T> {
    pub key: SensorKey,
    pub entity_id: u8,
    pub entity_instance: EntityInstance,
    pub initialization: SensorInitialization,
    pub capabilities: SensorCapabilities,
    pub sensor_type: SensorType,
    pub event_reading_type_code: EventReadingTypeCodes,
    pub sensor_units: SensorUnits,
    pub sensor_id: SensorId,
    /// Whether the name is read yet.
    pub marker: T,
}

/// The common part of a sensor record as a mathematical value.
pub struct SensorRecordCommonView {
    pub key: SensorKey,
    pub entity_id: u8,
    pub entity_instance: EntityInstance,
    pub initialization: SensorInitialization,
    pub capabilities: SensorCapabilities,
    pub sensor_type: SensorType,
    pub event_reading_type_code: EventReadingTypeCodes,
    pub sensor_units: SensorUnits,
    pub sensor_id: SensorIdView,
}

impl<T> View for SensorRecordCommon<T> {
    type V = SensorRecordCommonView;

    open spec fn view(&self) -> SensorRecordCommonView {
        SensorRecordCommonView {
            key: self.key,
            entity_id: self.entity_id,
            entity_instance: self.entity_instance,
            initialization: self.initialization,
            capabilities: self.capabilities,
            sensor_type: self.sensor_type,
            event_reading_type_code: self.event_reading_type_code,
            sensor_units: self.sensor_units,
            sensor_id: self.sensor_id@,
        }
    }
}

impl SensorRecordCommonView {
    /// The error with which the common part of a record is refused, if it
    /// is: it has eighteen bytes, and its first three are a sensor key.
    pub open spec fn parse_error(record_data: Seq<u8>) -> Option<Error> {
        if record_data.len() < COMMON_LEN {
            Some(parse_failure(EParse::SensorRecordCommonLength))
        } else {
            SensorKey::parse_error(record_data.subrange(0, 3))
        }
    }

    /// Whether `common` is what the first eighteen bytes of a record hold,
    /// with an empty name.
    pub open spec fn parsed_from(common: SensorRecordCommonView, record_data: Seq<u8>) -> bool {
        &&& SensorKey::parsed_from(common.key, record_data.subrange(0, 3))
        &&& common.entity_id == record_data[3]
        &&& common.entity_instance == EntityInstance::spec_from(record_data[4])
        &&& common.initialization == SensorInitialization::spec_from(record_data[5])
        &&& common.capabilities == SensorCapabilities::spec_new(
            record_data[6],
            le_value(record_data.subrange(9, 11)) as u16,
            le_value(record_data.subrange(11, 13)) as u16,
            le_value(record_data.subrange(13, 15)) as u16,
        )
        &&& common.sensor_type == SensorType(record_data[7])
        &&& common.event_reading_type_code == EventReadingTypeCodes::spec_from(record_data[8])
        &&& common.sensor_units == SensorUnits::spec_from(
            record_data[15],
            record_data[16],
            record_data[17],
        )
        &&& common.sensor_id == SensorIdView::Unicode(Seq::<u8>::empty())
    }
}

impl SensorRecordCommon<IdUnset> {
    /// Parses the common part of a sensor record and leaves the name empty.
    /// The second result is where the rest of the record starts.
    pub fn parse_without_id(record_data: &[u8]) -> (parsed: Result<
        (SensorRecordCommon<IdUnset>, usize),
        Error,
    >)
        ensures
            match parsed {
                Ok((common, rest)) => {
                    &&& SensorRecordCommonView::parse_error(record_data@) is None
                    &&& SensorRecordCommonView::parsed_from(common@, record_data@)
                    &&& rest == COMMON_LEN
                },
                Err(e) => SensorRecordCommonView::parse_error(record_data@) == Some(e),
            },
    {
        if record_data.len() < COMMON_LEN {
            return Err(
                Error::Packet(
                    EPacket::IpmiPayload(
                        EIpmiPayload::Command(ECommand::Parse(EParse::SensorRecordCommonLength)),
                    ),
                ),
            );
        }
        let key = match SensorKey::parse(vstd::slice::slice_subrange(record_data, 0, 3)) {
            Err(e) => {
                return Err(e);
            },
            Ok(k) => k,
        };
        let capabilities = SensorCapabilities::new(
            record_data[6],
            read_u16_le(record_data, 9),
            read_u16_le(record_data, 11),
            read_u16_le(record_data, 13),
        );
        Ok(
            (
                SensorRecordCommon {
                    key,
                    entity_id: record_data[3],
                    entity_instance: EntityInstance::from(record_data[4]),
                    initialization: SensorInitialization::from(record_data[5]),
                    capabilities,
                    sensor_type: SensorType::from(record_data[7]),
                    event_reading_type_code: EventReadingTypeCodes::from(record_data[8]),
                    sensor_units: SensorUnits::from(
                        record_data[15],
                        record_data[16],
                        record_data[17],
                    ),
                    sensor_id: SensorId::default(),
                    marker: IdUnset,
                },
                COMMON_LEN,
            ),
        )
    }

    /// Gives the record its name.
    pub fn set_id(self, id: SensorId) -> (named: SensorRecordCommon<IdSettled>)
        ensures
            named@ == (SensorRecordCommonView { sensor_id: id@, ..self@ }),
    {
        SensorRecordCommon {
            key: self.key,
            entity_id: self.entity_id,
            entity_instance: self.entity_instance,
            initialization: self.initialization,
            capabilities: self.capabilities,
            sensor_type: self.sensor_type,
            event_reading_type_code: self.event_reading_type_code,
            sensor_units: self.sensor_units,
            sensor_id: id,
            marker: IdSettled,
        }
    }
}

} // verus!
