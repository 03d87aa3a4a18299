//! What an entry of the event log says of its event.

use crate::rmcp::ipmi::payload::lun::Lun;
use crate::rmcp::ipmi::storage::sdr::sensor::lun_of;
use crate::rmcp::ipmi::storage::sel::constant::{
    generic_event_desc, generic_key, sensor_specific_event_desc, spec_generic_event_desc,
    spec_generic_key, spec_sensor_specific_event_desc, spec_specific_key, specific_key,
};
use vstd::prelude::*;

verus! {

/// The type of an event, with its code.
#[derive(Clone, Copy, Debug, PartialEq, Eq, Structural)]
pub enum EventType {
    Unspecified(u8),
    Threshold(u8),
    Generic(u8),
    SensorSpecific(u8),
    Oem(u8),
    Unknown(u8),
}

/// The second data byte as it counts for the lookup: 0xFF unless the first
/// data byte says that it holds something.
pub open spec fn counted_data2(data: Seq<u8>) -> u8 {
    if data[0] & 0xc0 != 0 {
        data[1]
    } else {
        0xff
    }
}

/// The third data byte as it counts for the lookup: 0xFF unless the first
/// data byte says that it holds something.
pub open spec fn counted_data3(data: Seq<u8>) -> u8 {
    if data[0] & 0x30 != 0 {
        data[2]
    } else {
        0xff
    }
}

impl EventType {
    pub open spec fn spec_from(value: u8) -> EventType {
        if value == 0x00 {
            EventType::Unspecified(0x00)
        } else if value == 0x01 {
            EventType::Threshold(0x01)
        } else if value <= 0x0c {
            EventType::Generic(value)
        } else if value == 0x6f {
            EventType::SensorSpecific(0x6f)
        } else if 0x70 <= value && value <= 0x7f {
            EventType::Oem(value)
        } else {
            EventType::Unknown(value)
        }
    }

    /// The event type with code `value`.
    pub fn from(value: u8) -> (event_type: EventType)
        ensures
            event_type == EventType::spec_from(value),
    {
        if value == 0x00 {
            EventType::Unspecified(0x00)
        } else if value == 0x01 {
            EventType::Threshold(0x01)
        } else if value <= 0x0c {
            EventType::Generic(value)
        } else if value == 0x6f {
            EventType::SensorSpecific(0x6f)
        } else if 0x70 <= value && value <= 0x7f {
            EventType::Oem(value)
        } else {
            EventType::Unknown(value)
        }
    }

    /// The key under which a sensor-specific event is found: the one with
    /// its data bytes if that has a text, else the one for any data bytes.
    pub open spec fn spec_specific_key_found(sensor_type: u8, data: Seq<u8>) -> Option<u32> {
        let offset = data[0] & 0x0f;
        let exact = spec_specific_key(sensor_type, offset, counted_data2(data), counted_data3(data));
        let any = spec_specific_key(sensor_type, offset, 0xff, 0xff);
        if spec_sensor_specific_event_desc(exact) is Some {
            Some(exact)
        } else if spec_sensor_specific_event_desc(any) is Some {
            Some(any)
        } else {
            None
        }
    }

    /// The text of the event: for a threshold or generic event the one of
    /// its type and offset, for a sensor-specific event the one of the
    /// sensor type, the offset and the data bytes.
    pub open spec fn spec_description(&self, sensor_type: u8, data: Seq<u8>) -> &'static str {
        match *self {
            EventType::Threshold(event_type) | EventType::Generic(event_type) => {
                match spec_generic_event_desc(spec_generic_key(event_type, data[0] & 0x0f)) {
                    Some(text) => text,
                    None => "generic unknown",
                }
            },
            EventType::SensorSpecific(_) => match EventType::spec_specific_key_found(
                sensor_type,
                data,
            ) {
                Some(key) => spec_sensor_specific_event_desc(key)->Some_0,
                None => "specific not found",
            },
            EventType::Oem(_) => "oem",
            EventType::Unknown(_) | EventType::Unspecified(_) => "other unknown",
        }
    }

    /// The text of the event.
    pub fn description(&self, sensor_type: u8, data: &[u8; 3]) -> (text: &'static str)
        ensures
            text == self.spec_description(sensor_type, data@),
    {
        match self {
            EventType::Threshold(event_type) | EventType::Generic(event_type) => {
                let first = data[0];
                let offset = first & 0x0f;
                assert(offset <= 15) by (bit_vector)
                    requires
                        offset == first & 0x0f,
                ;
                match generic_event_desc(generic_key(*event_type, offset)) {
                    Some(text) => text,
                    None => "generic unknown",
                }
            },
            EventType::SensorSpecific(_) => {
                match EventType::specific_key_found(sensor_type, data) {
                    Some(key) => match sensor_specific_event_desc(key) {
                        Some(text) => text,
                        None => "specific not found",
                    },
                    None => "specific not found",
                }
            },
            EventType::Oem(_) => "oem",
            EventType::Unknown(_) | EventType::Unspecified(_) => "other unknown",
        }
    }

    /// The key under which a sensor-specific event is found, if its text is
    /// known.
    pub fn specific_key_found(sensor_type: u8, data: &[u8; 3]) -> (key: Option<u32>)
        ensures
            key == EventType::spec_specific_key_found(sensor_type, data@),
    {
        let d1: u8 = data[0];
        let d2: u8 = if d1 & 0xc0 != 0 {
            data[1]
        } else {
            0xff
        };
        let d3: u8 = if d1 & 0x30 != 0 {
            data[2]
        } else {
            0xff
        };
        let offset = d1 & 0x0f;
        assert(offset <= 15) by (bit_vector)
            requires
                offset == d1 & 0x0f,
        ;
        let exact = specific_key(sensor_type, offset, d2, d3);
        if sensor_specific_event_desc(exact).is_some() {
            return Some(exact);
        }
        let any = specific_key(sensor_type, offset, 0xff, 0xff);
        if sensor_specific_event_desc(any).is_some() {
            return Some(any);
        }
        None
    }

    /// The event as one number: the key of its text for a threshold, a
    /// generic or a known sensor-specific event, zero for an unknown
    /// sensor-specific event, else its code.
    pub open spec fn spec_data_to_u32(&self, sensor_type: u8, data: Seq<u8>) -> u32 {
        match *self {
            EventType::Threshold(event_type) | EventType::Generic(event_type) => spec_generic_key(
                event_type,
                data[0] & 0x0f,
            ),
            EventType::SensorSpecific(_) => match EventType::spec_specific_key_found(
                sensor_type,
                data,
            ) {
                Some(key) => key,
                None => 0,
            },
            EventType::Oem(code) => code as u32,
            EventType::Unknown(code) | EventType::Unspecified(code) => code as u32,
        }
    }

    /// The event as one number.
    pub fn data_to_u32(&self, sensor_type: u8, data: &[u8; 3]) -> (key: u32)
        ensures
            key == self.spec_data_to_u32(sensor_type, data@),
    {
        match self {
            EventType::Threshold(event_type) | EventType::Generic(event_type) => {
                let first = data[0];
                let offset = first & 0x0f;
                assert(offset <= 15) by (bit_vector)
                    requires
                        offset == first & 0x0f,
                ;
                generic_key(*event_type, offset)
            },
            EventType::SensorSpecific(_) => match EventType::specific_key_found(sensor_type, data) {
                Some(key) => key,
                None => 0,
            },
            EventType::Oem(oem) => *oem as u32,
            EventType::Unknown(v) | EventType::Unspecified(v) => *v as u32,
        }
    }
}

/// The revision of the event message format.
#[derive(Clone, Copy, Debug, PartialEq, Eq, Structural)]
pub enum EventMessageRevision {
    V2_0,
    V1_0,
    Unknown(u8),
}

impl EventMessageRevision {
    pub open spec fn spec_from(value: u8) -> EventMessageRevision {
        if value == 0x04 {
            EventMessageRevision::V2_0
        } else if value == 0x03 {
            EventMessageRevision::V1_0
        } else {
            EventMessageRevision::Unknown(value)
        }
    }

    /// The revision with code `value`.
    pub fn from(value: u8) -> (revision: EventMessageRevision)
        ensures
            revision == EventMessageRevision::spec_from(value),
    {
        match value {
            0x04 => EventMessageRevision::V2_0,
            0x03 => EventMessageRevision::V1_0,
            v => EventMessageRevision::Unknown(v),
        }
    }
}

/// Whether an event was asserted or deasserted.
#[derive(Clone, Copy, Debug, PartialEq, Eq, Structural)]
pub enum EventDirection {
    Assert,
    Deassert,
}

/// What generated an event.
#[derive(Clone, Copy, Debug, PartialEq, Eq, Structural)]
pub enum EventGenerator {
    RqSAAndLun { i2c_addr: u8, channel_number: u8, lun: Lun },
    SoftwareId { software_id: u8, channel_number: u8 },
}

impl EventGenerator {
    /// The generator that the two bytes name: the lowest bit of the first
    /// tells software from a device and its upper seven bits are the
    /// identifier; the channel is in the upper half of the second byte and
    /// the logical unit of a device in its low two bits.
    pub open spec fn spec_from(first: u8, second: u8) -> EventGenerator {
        if first % 2 == 1 {
            EventGenerator::SoftwareId { software_id: first / 2, channel_number: second / 16 }
        } else {
            EventGenerator::RqSAAndLun {
                i2c_addr: first / 2,
                channel_number: second / 16,
                lun: lun_of((second % 4) as int),
            }
        }
    }

    /// Reads the two generator bytes.
    pub fn from(first: u8, second: u8) -> (generator: EventGenerator)
        ensures
            generator == EventGenerator::spec_from(first, second),
    {
        if first % 2 == 1 {
            EventGenerator::SoftwareId { software_id: first / 2, channel_number: second / 16 }
        } else {
            let code = second % 4;
            let lun = if code == 0 {
                Lun::Bmc
            } else if code == 1 {
                Lun::Oem1
            } else if code == 2 {
                Lun::Sms
            } else {
                Lun::Oem2
            };
            EventGenerator::RqSAAndLun { i2c_addr: first / 2, channel_number: second / 16, lun }
        }
    }
}

} // verus!
