//! Codes that a sensor data record carries as they stand.

use vstd::prelude::*;

verus! {

/// The type of a sensor, by its code: 0x01 is temperature, 0x02 voltage,
/// 0x04 fan, and so on.
#[derive(Clone, Copy, Debug, PartialEq, Eq, Structural)]
pub struct SensorType(pub u8);

impl SensorType {
    pub open spec fn spec_from(value: u8) -> SensorType {
        SensorType(value)
    }

    pub fn from(value: u8) -> (sensor_type: SensorType)
        ensures
            sensor_type == SensorType::spec_from(value),
    {
        SensorType(value)
    }

    pub open spec fn spec_to_byte(&self) -> u8 {
        self.0
    }

    pub fn to_byte(&self) -> (byte: u8)
        ensures
            byte == self.spec_to_byte(),
    {
        self.0
    }
}

/// A unit of measurement, by its code: 1 is degrees Celsius, 4 volts,
/// 18 revolutions per minute, and so on.
#[derive(Clone, Copy, Debug, PartialEq, Eq, Structural)]
pub struct Unit(pub u8);

impl Unit {
    pub open spec fn spec_from(value: u8) -> Unit {
        Unit(value)
    }

    pub fn from(value: u8) -> (unit: Unit)
        ensures
            unit == Unit::spec_from(value),
    {
        Unit(value)
    }
}

} // verus!
