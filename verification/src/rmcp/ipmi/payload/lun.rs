//! Logical unit numbers.

use crate::err::{ECommand, Error};
use vstd::prelude::*;

verus! {

/// The two-bit sub-address inside a network function.
#[derive(Clone, Copy, Debug, PartialEq, Eq, Structural)]
pub enum Lun {
    Bmc,
    Oem1,
    Sms,
    Oem2,
}

impl Lun {
    /// The logical unit that the byte `value` names, if it names one.
    pub open spec fn spec_try_from(value: u8) -> Result<Lun, Error> {
        if value == 0 {
            Ok(Lun::Bmc)
        } else if value == 1 {
            Ok(Lun::Oem1)
        } else if value == 2 {
            Ok(Lun::Sms)
        } else if value == 3 {
            Ok(Lun::Oem2)
        } else {
            Err(Error::TryFromU8(value))
        }
    }

    /// The logical unit that the byte `value` names, if it names one.
    pub fn try_from(value: u8) -> (converted: Result<Lun, Error>)
        ensures
            converted == Lun::spec_try_from(value),
    {
        if value == 0 {
            Ok(Lun::Bmc)
        } else if value == 1 {
            Ok(Lun::Oem1)
        } else if value == 2 {
            Ok(Lun::Sms)
        } else if value == 3 {
            Ok(Lun::Oem2)
        } else {
            Err(Error::TryFromU8(value))
        }
    }

    /// The byte that names this logical unit.
    pub open spec fn spec_to_byte(&self) -> u8 {
        match *self {
            Lun::Bmc => 0,
            Lun::Oem1 => 1,
            Lun::Sms => 2,
            Lun::Oem2 => 3,
        }
    }

    /// The byte that names this logical unit.
    pub fn to_byte(&self) -> (byte: u8)
        ensures
            byte == self.spec_to_byte(),
    {
        match *self {
            Lun::Bmc => 0,
            Lun::Oem1 => 1,
            Lun::Sms => 2,
            Lun::Oem2 => 3,
        }
    }

    pub open spec fn spec_new(value: u8) -> Result<Lun, ECommand> {
        if value == 0 {
            Ok(Lun::Bmc)
        } else if value == 1 {
            Ok(Lun::Oem1)
        } else if value == 2 {
            Ok(Lun::Sms)
        } else if value == 3 {
            Ok(Lun::Oem2)
        } else {
            Err(ECommand::UnknownLun(value))
        }
    }

    /// The logical unit with number `value`, which must be at most 3.
    pub fn new(value: u8) -> (lun: Result<Lun, ECommand>)
        ensures
            lun == Lun::spec_new(value),
    {
        match value {
            0 => Ok(Lun::Bmc),
            1 => Ok(Lun::Oem1),
            2 => Ok(Lun::Sms),
            3 => Ok(Lun::Oem2),
            _ => Err(ECommand::UnknownLun(value)),
        }
    }
}

/// A logical unit number survives being written and read back.
pub proof fn lemma_lun_round_trip(lun: Lun)
    ensures
        Lun::spec_new(lun.spec_to_byte()) == Ok::<Lun, ECommand>(lun),
        Lun::spec_try_from(lun.spec_to_byte()) == Ok::<Lun, Error>(lun),
        lun.spec_to_byte() <= 3,
{
}

} // verus!
