//! Addresses of the two ends of an IPMI message.

use vstd::prelude::*;

verus! {

/// What the top bit of an address byte says about the other seven.
#[derive(Clone, Copy, Debug, PartialEq, Eq, Structural)]
pub enum AddrType {
    SlaveAddress,
    SoftwareId,
}

impl AddrType {
    /// The address type that the flag `value` names.
    pub open spec fn spec_from(value: bool) -> AddrType {
        if value {
            AddrType::SoftwareId
        } else {
            AddrType::SlaveAddress
        }
    }

    /// The address type that the flag `value` names.
    pub fn from(value: bool) -> (converted: AddrType)
        ensures
            converted == AddrType::spec_from(value),
    {
        if value {
            AddrType::SoftwareId
        } else {
            AddrType::SlaveAddress
        }
    }

    /// The byte that names this address type.
    pub open spec fn spec_to_byte(&self) -> u8 {
        match *self {
            AddrType::SlaveAddress => 0,
            AddrType::SoftwareId => 2,
        }
    }

    /// The byte that names this address type.
    pub fn to_byte(&self) -> (byte: u8)
        ensures
            byte == self.spec_to_byte(),
    {
        match *self {
            AddrType::SlaveAddress => 0,
            AddrType::SoftwareId => 2,
        }
    }
}

/// The kind of software behind a software identifier.
#[derive(Clone, Copy, Debug, PartialEq, Eq, Structural)]
pub enum SoftwareType {
    Bios,
    SmiHandler,
    SystemManagementSoftware,
    Oem,
    RemoteConsoleSoftware(u8),
    TerminalModeRemoteConsole,
    Reserved(u8),
}

impl SoftwareType {
    /// The kind of software that the byte `value` names.
    pub open spec fn spec_from(value: u8) -> SoftwareType {
        if value <= 0x0f {
            SoftwareType::Bios
        } else if value <= 0x1f {
            SoftwareType::SmiHandler
        } else if value <= 0x2f {
            SoftwareType::SystemManagementSoftware
        } else if value <= 0x3f {
            SoftwareType::Oem
        } else if value <= 0x46 {
            SoftwareType::RemoteConsoleSoftware((value - 0x3f) as u8)
        } else if value == 0x47 {
            SoftwareType::TerminalModeRemoteConsole
        } else {
            SoftwareType::Reserved(value)
        }
    }

    /// The kind of software that the byte `value` names.
    pub fn from(value: u8) -> (converted: SoftwareType)
        ensures
            converted == SoftwareType::spec_from(value),
    {
        if value <= 0x0f {
            SoftwareType::Bios
        } else if value <= 0x1f {
            SoftwareType::SmiHandler
        } else if value <= 0x2f {
            SoftwareType::SystemManagementSoftware
        } else if value <= 0x3f {
            SoftwareType::Oem
        } else if value <= 0x46 {
            SoftwareType::RemoteConsoleSoftware((value - 0x3f) as u8)
        } else if value == 0x47 {
            SoftwareType::TerminalModeRemoteConsole
        } else {
            SoftwareType::Reserved(value)
        }
    }

    /// The byte that names this kind of software.
    pub open spec fn spec_to_byte(&self) -> u8 {
        match *self {
            SoftwareType::Bios => 0x00,
            SoftwareType::SmiHandler => 0x10,
            SoftwareType::SystemManagementSoftware => 0x20,
            SoftwareType::Oem => 0x30,
            SoftwareType::RemoteConsoleSoftware(number) => number,
            SoftwareType::TerminalModeRemoteConsole => 0x47,
            SoftwareType::Reserved(code) => code,
        }
    }

    /// The byte that names this kind of software.
    pub fn to_byte(&self) -> (byte: u8)
        ensures
            byte == self.spec_to_byte(),
    {
        match *self {
            SoftwareType::Bios => 0x00,
            SoftwareType::SmiHandler => 0x10,
            SoftwareType::SystemManagementSoftware => 0x20,
            SoftwareType::Oem => 0x30,
            SoftwareType::RemoteConsoleSoftware(number) => number,
            SoftwareType::TerminalModeRemoteConsole => 0x47,
            SoftwareType::Reserved(code) => code,
        }
    }
}

/// An I2C slave address.
#[derive(Clone, Copy, Debug, PartialEq, Eq, Structural)]
pub enum SlaveAddress {
    Bmc,
    Unknown(u8),
}

impl SlaveAddress {
    /// The slave address that the byte `value` names.
    pub open spec fn spec_from(value: u8) -> SlaveAddress {
        if value == 0x20 {
            SlaveAddress::Bmc
        } else {
            SlaveAddress::Unknown(value)
        }
    }

    /// The slave address that the byte `value` names.
    pub fn from(value: u8) -> (converted: SlaveAddress)
        ensures
            converted == SlaveAddress::spec_from(value),
    {
        if value == 0x20 {
            SlaveAddress::Bmc
        } else {
            SlaveAddress::Unknown(value)
        }
    }

    /// The byte that names this slave address.
    pub open spec fn spec_to_byte(&self) -> u8 {
        match *self {
            SlaveAddress::Bmc => 0x20,
            SlaveAddress::Unknown(code) => code,
        }
    }

    /// The byte that names this slave address.
    pub fn to_byte(&self) -> (byte: u8)
        ensures
            byte == self.spec_to_byte(),
    {
        match *self {
            SlaveAddress::Bmc => 0x20,
            SlaveAddress::Unknown(code) => code,
        }
    }
}

/// One end of an IPMI message: a slave address where the top bit of the byte
/// is clear, a software identifier where it is set. The identifier is the
/// byte without its lowest bit, so that 0x81 is the first remote console.
#[derive(Clone, Copy, Debug, PartialEq, Eq, Structural)]
pub enum Address {
    Slave(SlaveAddress),
    Software(SoftwareType),
}

impl Address {
    /// The address that the byte `value` names.
    pub open spec fn spec_from(value: u8) -> Address {
        if value >= 0x80 {
            Address::Software(SoftwareType::spec_from((value / 2) as u8))
        } else {
            Address::Slave(SlaveAddress::spec_from(value))
        }
    }

    /// The address that the byte `value` names.
    pub fn from(value: u8) -> (converted: Address)
        ensures
            converted == Address::spec_from(value),
    {
        if value >= 0x80 {
            Address::Software(SoftwareType::from((value / 2) as u8))
        } else {
            Address::Slave(SlaveAddress::from(value))
        }
    }
}

/// The address byte of the BMC itself.
pub const BMC_SLAVE_ADDRESS: u8 = 0x20;

/// The address byte of the first remote console.
pub const REMOTE_SOFTWARE_ID: u8 = 0x81;

/// Reading the two address bytes that every request carries.
pub proof fn lemma_request_addresses()
    ensures
        Address::spec_from(BMC_SLAVE_ADDRESS) == Address::Slave(SlaveAddress::Bmc),
        Address::spec_from(REMOTE_SOFTWARE_ID) == Address::Software(
            SoftwareType::RemoteConsoleSoftware(1),
        ),
{
}

} // verus!
