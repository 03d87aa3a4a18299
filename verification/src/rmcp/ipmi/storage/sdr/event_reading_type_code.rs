//! What kind of events and readings a sensor gives.

use vstd::prelude::*;

verus! {

/// A generic discrete event/reading type, codes 0x02 to 0x0C.
#[derive(Clone, Copy, Debug, PartialEq, Eq, Structural)]
pub enum EventReading {
    UsageState,
    StateAssertion,
    PredictiveFailure,
    LimitExcess,
    PerformanceMetric,
    SeverityEvents,
    DevicePresence,
    DeviceEnabledStatus,
    PowerState,
    RedundancyState,
    AcpiDevicePowerState,
}

impl EventReading {
    pub open spec fn spec_try_from(value: u8) -> Result<EventReading, ()> {
        if value == 0x02 {
            Ok(EventReading::UsageState)
        } else if value == 0x03 {
            Ok(EventReading::StateAssertion)
        } else if value == 0x04 {
            Ok(EventReading::PredictiveFailure)
        } else if value == 0x05 {
            Ok(EventReading::LimitExcess)
        } else if value == 0x06 {
            Ok(EventReading::PerformanceMetric)
        } else if value == 0x07 {
            Ok(EventReading::SeverityEvents)
        } else if value == 0x08 {
            Ok(EventReading::DevicePresence)
        } else if value == 0x09 {
            Ok(EventReading::DeviceEnabledStatus)
        } else if value == 0x0A {
            Ok(EventReading::PowerState)
        } else if value == 0x0B {
            Ok(EventReading::RedundancyState)
        } else if value == 0x0C {
            Ok(EventReading::AcpiDevicePowerState)
        } else {
            Err(())
        }
    }

    /// The generic type with code `value`, which must lie between 0x02 and
    /// 0x0C.
    pub fn try_from(value: u8) -> (reading: Result<EventReading, ()>)
        ensures
            reading == EventReading::spec_try_from(value),
            reading is Ok <==> 0x02 <= value <= 0x0C,
    {
        match value {
            0x02 => Ok(EventReading::UsageState),
            0x03 => Ok(EventReading::StateAssertion),
            0x04 => Ok(EventReading::PredictiveFailure),
            0x05 => Ok(EventReading::LimitExcess),
            0x06 => Ok(EventReading::PerformanceMetric),
            0x07 => Ok(EventReading::SeverityEvents),
            0x08 => Ok(EventReading::DevicePresence),
            0x09 => Ok(EventReading::DeviceEnabledStatus),
            0x0A => Ok(EventReading::PowerState),
            0x0B => Ok(EventReading::RedundancyState),
            0x0C => Ok(EventReading::AcpiDevicePowerState),
            _ => Err(()),
        }
    }

    pub open spec fn spec_to_byte(&self) -> u8 {
        match *self {
            EventReading::UsageState => 0x02,
            EventReading::StateAssertion => 0x03,
            EventReading::PredictiveFailure => 0x04,
            EventReading::LimitExcess => 0x05,
            EventReading::PerformanceMetric => 0x06,
            EventReading::SeverityEvents => 0x07,
            EventReading::DevicePresence => 0x08,
            EventReading::DeviceEnabledStatus => 0x09,
            EventReading::PowerState => 0x0A,
            EventReading::RedundancyState => 0x0B,
            EventReading::AcpiDevicePowerState => 0x0C,
        }
    }

    /// The code of this generic type.
    pub fn to_byte(&self) -> (byte: u8)
        ensures
            byte == self.spec_to_byte(),
            EventReading::spec_try_from(byte) == Ok::<EventReading, ()>(*self),
    {
        match self {
            EventReading::UsageState => 0x02,
            EventReading::StateAssertion => 0x03,
            EventReading::PredictiveFailure => 0x04,
            EventReading::LimitExcess => 0x05,
            EventReading::PerformanceMetric => 0x06,
            EventReading::SeverityEvents => 0x07,
            EventReading::DevicePresence => 0x08,
            EventReading::DeviceEnabledStatus => 0x09,
            EventReading::PowerState => 0x0A,
            EventReading::RedundancyState => 0x0B,
            EventReading::AcpiDevicePowerState => 0x0C,
        }
    }
}

/// The event/reading type code of a sensor.
#[derive(Clone, Copy, Debug, PartialEq, Eq, Structural)]
pub enum EventReadingTypeCodes {
    Unspecified,
    Threshold,
    DiscreteGeneric(EventReading),
    SensorSpecific,
    Oem(u8),
    Reserved(u8),
}

impl EventReadingTypeCodes {
    pub open spec fn spec_from(value: u8) -> EventReadingTypeCodes {
        if value == 0x00 {
            EventReadingTypeCodes::Unspecified
        } else if value == 0x01 {
            EventReadingTypeCodes::Threshold
        } else if value <= 0x0C {
            EventReadingTypeCodes::DiscreteGeneric(EventReading::spec_try_from(value)->Ok_0)
        } else if value == 0x6F {
            EventReadingTypeCodes::SensorSpecific
        } else if 0x70 <= value && value <= 0x7F {
            EventReadingTypeCodes::Oem(value)
        } else {
            EventReadingTypeCodes::Reserved(value)
        }
    }

    /// The type with code `value`.
    pub fn from(value: u8) -> (code: EventReadingTypeCodes)
        ensures
            code == EventReadingTypeCodes::spec_from(value),
    {
        if value == 0x00 {
            EventReadingTypeCodes::Unspecified
        } else if value == 0x01 {
            EventReadingTypeCodes::Threshold
        } else if value <= 0x0C {
            match EventReading::try_from(value) {
                Ok(reading) => EventReadingTypeCodes::DiscreteGeneric(reading),
                Err(_) => EventReadingTypeCodes::Reserved(value),
            }
        } else if value == 0x6F {
            EventReadingTypeCodes::SensorSpecific
        } else if 0x70 <= value && value <= 0x7F {
            EventReadingTypeCodes::Oem(value)
        } else {
            EventReadingTypeCodes::Reserved(value)
        }
    }
}

} // verus!
