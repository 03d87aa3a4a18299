//! The units in which a sensor reports.

use crate::rmcp::ipmi::storage::sdr::sensor_type::Unit;
use vstd::prelude::*;

verus! {

/// How the raw reading of a sensor is to be read.
#[derive(Clone, Copy, Debug, PartialEq, Eq, Structural)]
pub enum DataFormat {
    Unsigned,
    OnesComplement,
    TwosComplement,
}

/// The time over which a rate is taken.
#[derive(Clone, Copy, Debug, PartialEq, Eq, Structural)]
pub enum RateUnit {
    Microsecond,
    Millisecond,
    Second,
    Minute,
    Hour,
    Day,
}

/// How a second unit modifies the base unit.
#[derive(Clone, Copy, Debug, PartialEq, Eq, Structural)]
pub enum ModifierUnit {
    BasUnitDivByModifier(Unit),
    BaseUnitMulByModifier(Unit),
}

/// The units of a sensor.
#[derive(Clone, Copy, Debug, PartialEq, Eq, Structural)]
pub struct SensorUnits {
    pub rate: Option<RateUnit>,
    pub modifier: Option<ModifierUnit>,
    pub is_percentage: bool,
    pub base_unit: Unit,
}

impl SensorUnits {
    /// The rate unit in bits 5 to 3 of the first units byte.
    pub open spec fn spec_rate(sensor_units_1: u8) -> Option<RateUnit> {
        let code = (sensor_units_1 / 8) % 8;
        if code == 1 {
            Some(RateUnit::Microsecond)
        } else if code == 2 {
            Some(RateUnit::Millisecond)
        } else if code == 3 {
            Some(RateUnit::Second)
        } else if code == 4 {
            Some(RateUnit::Minute)
        } else if code == 5 {
            Some(RateUnit::Hour)
        } else if code == 6 {
            Some(RateUnit::Day)
        } else {
            None
        }
    }

    /// The modifier in bits 2 and 1 of the first units byte.
    pub open spec fn spec_modifier(sensor_units_1: u8, modifier_unit: u8) -> Option<ModifierUnit> {
        let code = (sensor_units_1 / 2) % 4;
        if code == 1 {
            Some(ModifierUnit::BasUnitDivByModifier(Unit(modifier_unit)))
        } else if code == 2 {
            Some(ModifierUnit::BaseUnitMulByModifier(Unit(modifier_unit)))
        } else {
            None
        }
    }

    pub open spec fn spec_from(sensor_units_1: u8, base_unit: u8, modifier_unit: u8)
        -> SensorUnits {
        SensorUnits {
            rate: SensorUnits::spec_rate(sensor_units_1),
            modifier: SensorUnits::spec_modifier(sensor_units_1, modifier_unit),
            is_percentage: sensor_units_1 % 2 == 1,
            base_unit: Unit(base_unit),
        }
    }

    /// The units that the three units bytes of a sensor record describe.
    pub fn from(sensor_units_1: u8, base_unit: u8, modifier_unit: u8) -> (units: SensorUnits)
        ensures
            units == SensorUnits::spec_from(sensor_units_1, base_unit, modifier_unit),
    {
        let rate_code = (sensor_units_1 / 8) % 8;
        let rate = if rate_code == 1 {
            Some(RateUnit::Microsecond)
        } else if rate_code == 2 {
            Some(RateUnit::Millisecond)
        } else if rate_code == 3 {
            Some(RateUnit::Second)
        } else if rate_code == 4 {
            Some(RateUnit::Minute)
        } else if rate_code == 5 {
            Some(RateUnit::Hour)
        } else if rate_code == 6 {
            Some(RateUnit::Day)
        } else {
            None
        };
        let modifier_code = (sensor_units_1 / 2) % 4;
        let modifier = if modifier_code == 1 {
            Some(ModifierUnit::BasUnitDivByModifier(Unit::from(modifier_unit)))
        } else if modifier_code == 2 {
            Some(ModifierUnit::BaseUnitMulByModifier(Unit::from(modifier_unit)))
        } else {
            None
        };
        SensorUnits {
            rate,
            modifier,
            is_percentage: sensor_units_1 % 2 == 1,
            base_unit: Unit::from(base_unit),
        }
    }
}

} // verus!
