//! Network functions and the byte that packs one with a logical unit.

use crate::err::ECommand;
use crate::rmcp::ipmi::payload::lun::Lun;
use vstd::prelude::*;

verus! {

/// Whether a network function code names a request or a response: even codes
/// are requests, odd codes are responses.
#[derive(Clone, Copy, Debug, PartialEq, Eq, Structural)]
pub enum CommandType {
    Request,
    Response,
}

impl CommandType {
    /// The command type that the byte `value` names.
    pub open spec fn spec_from(value: u8) -> CommandType {
        if value % 2 == 0 {
            CommandType::Request
        } else {
            CommandType::Response
        }
    }

    /// The command type that the byte `value` names.
    pub fn from(value: u8) -> (converted: CommandType)
        ensures
            converted == CommandType::spec_from(value),
    {
        if value % 2 == 0 {
            CommandType::Request
        } else {
            CommandType::Response
        }
    }
}

/// The six-bit namespace that groups IPMI commands.
#[derive(Clone, Copy, Debug, PartialEq, Eq, Structural)]
pub enum NetFn {
    Chassis,
    Bridge,
    SensorEvent,
    App,
    Firmware,
    Storage,
    Transport,
    Reserved,
    Unknown(u8),
}

impl NetFn {
    /// The network function that the byte `value` names.
    pub open spec fn spec_from(value: u8) -> NetFn {
        if value <= 0x01 {
            NetFn::Chassis
        } else if 0x02 <= value && value <= 0x03 {
            NetFn::Bridge
        } else if 0x04 <= value && value <= 0x05 {
            NetFn::SensorEvent
        } else if 0x06 <= value && value <= 0x07 {
            NetFn::App
        } else if 0x08 <= value && value <= 0x09 {
            NetFn::Firmware
        } else if 0x0a <= value && value <= 0x0b {
            NetFn::Storage
        } else if 0x0c <= value && value <= 0x0d {
            NetFn::Transport
        } else if 0x0e <= value && value <= 0x2b {
            NetFn::Reserved
        } else {
            NetFn::Unknown(value)
        }
    }

    /// The network function that the byte `value` names.
    pub fn from(value: u8) -> (converted: NetFn)
        ensures
            converted == NetFn::spec_from(value),
    {
        if value <= 0x01 {
            NetFn::Chassis
        } else if 0x02 <= value && value <= 0x03 {
            NetFn::Bridge
        } else if 0x04 <= value && value <= 0x05 {
            NetFn::SensorEvent
        } else if 0x06 <= value && value <= 0x07 {
            NetFn::App
        } else if 0x08 <= value && value <= 0x09 {
            NetFn::Firmware
        } else if 0x0a <= value && value <= 0x0b {
            NetFn::Storage
        } else if 0x0c <= value && value <= 0x0d {
            NetFn::Transport
        } else if 0x0e <= value && value <= 0x2b {
            NetFn::Reserved
        } else {
            NetFn::Unknown(value)
        }
    }

    /// The byte that names this network function.
    pub open spec fn spec_to_byte(&self) -> u8 {
        match *self {
            NetFn::Chassis => 0x00,
            NetFn::Bridge => 0x02,
            NetFn::SensorEvent => 0x04,
            NetFn::App => 0x06,
            NetFn::Firmware => 0x08,
            NetFn::Storage => 0x0a,
            NetFn::Transport => 0x0c,
            NetFn::Reserved => 0x0e,
            NetFn::Unknown(code) => code,
        }
    }

    /// The byte that names this network function.
    pub fn to_byte(&self) -> (byte: u8)
        ensures
            byte == self.spec_to_byte(),
    {
        match *self {
            NetFn::Chassis => 0x00,
            NetFn::Bridge => 0x02,
            NetFn::SensorEvent => 0x04,
            NetFn::App => 0x06,
            NetFn::Firmware => 0x08,
            NetFn::Storage => 0x0a,
            NetFn::Transport => 0x0c,
            NetFn::Reserved => 0x0e,
            NetFn::Unknown(code) => code,
        }
    }

    pub open spec fn spec_to_u8(&self, command_type: CommandType) -> u8 {
        match (*self, command_type) {
            (NetFn::Chassis, CommandType::Request) => 0x00,
            (NetFn::Chassis, CommandType::Response) => 0x01,
            (NetFn::Bridge, CommandType::Request) => 0x02,
            (NetFn::Bridge, CommandType::Response) => 0x03,
            (NetFn::SensorEvent, CommandType::Request) => 0x04,
            (NetFn::SensorEvent, CommandType::Response) => 0x05,
            (NetFn::App, CommandType::Request) => 0x06,
            (NetFn::App, CommandType::Response) => 0x07,
            (NetFn::Firmware, CommandType::Request) => 0x08,
            (NetFn::Firmware, CommandType::Response) => 0x09,
            (NetFn::Storage, CommandType::Request) => 0x0a,
            (NetFn::Storage, CommandType::Response) => 0x0b,
            (NetFn::Transport, CommandType::Request) => 0x0c,
            (NetFn::Transport, CommandType::Response) => 0x0d,
            (NetFn::Reserved, CommandType::Request) => 0x0e,
            (NetFn::Reserved, CommandType::Response) => 0x2b,
            (NetFn::Unknown(code), _) => code,
        }
    }

    /// The code of this network function for a request or for a response.
    pub fn to_u8(&self, command_type: CommandType) -> (code: u8)
        ensures
            code == self.spec_to_u8(command_type),
    {
        match (*self, command_type) {
            (NetFn::Chassis, CommandType::Request) => 0x00,
            (NetFn::Chassis, CommandType::Response) => 0x01,
            (NetFn::Bridge, CommandType::Request) => 0x02,
            (NetFn::Bridge, CommandType::Response) => 0x03,
            (NetFn::SensorEvent, CommandType::Request) => 0x04,
            (NetFn::SensorEvent, CommandType::Response) => 0x05,
            (NetFn::App, CommandType::Request) => 0x06,
            (NetFn::App, CommandType::Response) => 0x07,
            (NetFn::Firmware, CommandType::Request) => 0x08,
            (NetFn::Firmware, CommandType::Response) => 0x09,
            (NetFn::Storage, CommandType::Request) => 0x0a,
            (NetFn::Storage, CommandType::Response) => 0x0b,
            (NetFn::Transport, CommandType::Request) => 0x0c,
            (NetFn::Transport, CommandType::Response) => 0x0d,
            (NetFn::Reserved, CommandType::Request) => 0x0e,
            (NetFn::Reserved, CommandType::Response) => 0x2b,
            (NetFn::Unknown(code), _) => code,
        }
    }
}

/// One byte that holds a six-bit network function (or requester sequence
/// number) above a two-bit logical unit number.
#[derive(Clone, Copy, Debug, PartialEq, Eq, Structural)]
pub struct NetfnLun(pub u8);

/// The byte that pairs a requester sequence number with a logical unit.
pub type RqseqLun = NetfnLun;

/// The bits of a packed byte that hold the logical unit.
pub const IPMB_LUN_MASK: u8 = 0x03;

impl NetfnLun {
    /// The packed byte `value`.
    pub open spec fn spec_from(value: u8) -> NetfnLun {
        NetfnLun(value)
    }

    /// The packed byte `value`.
    pub fn from(value: u8) -> (converted: NetfnLun)
        ensures
            converted == NetfnLun::spec_from(value),
    {
        NetfnLun(value)
    }

    pub open spec fn spec_new(netfn: u8, lun: Lun) -> NetfnLun {
        NetfnLun((netfn << 2) | (lun.spec_to_byte() & IPMB_LUN_MASK))
    }

    /// Packs the low six bits of `netfn` above the number of `lun`.
    pub fn new(netfn: u8, lun: Lun) -> (packed: NetfnLun)
        ensures
            packed == NetfnLun::spec_new(netfn, lun),
    {
        NetfnLun((netfn << 2) | (lun.to_byte() & IPMB_LUN_MASK))
    }

    pub open spec fn spec_netfn(&self) -> NetFn {
        NetFn::spec_from(self.0 >> 2)
    }

    /// The network function in the upper six bits.
    pub fn netfn(&self) -> (netfn: NetFn)
        ensures
            netfn == self.spec_netfn(),
    {
        NetFn::from(self.0 >> 2)
    }

    pub open spec fn spec_lun(&self) -> Lun {
        let low = self.0 & IPMB_LUN_MASK;
        if low == 0 {
            Lun::Bmc
        } else if low == 1 {
            Lun::Oem1
        } else if low == 2 {
            Lun::Sms
        } else {
            Lun::Oem2
        }
    }

    /// The logical unit in the lower two bits.
    pub fn lun(&self) -> (lun: Result<Lun, ECommand>)
        ensures
            lun == Ok::<Lun, ECommand>(self.spec_lun()),
    {
        let byte = self.0;
        let low = byte & IPMB_LUN_MASK;
        assert(low <= 3) by (bit_vector)
            requires
                low == byte & 0x03u8,
        ;
        Lun::new(low)
    }

    pub open spec fn spec_rqseq(&self) -> u8 {
        self.0 >> 2
    }

    /// The requester sequence number in the upper six bits.
    pub fn rqseq(&self) -> (seq: u8)
        ensures
            seq == self.spec_rqseq(),
    {
        self.0 >> 2
    }
}

/// Packing a six-bit code with a logical unit loses neither.
pub proof fn lemma_netfn_lun_round_trip(netfn: u8, lun: Lun)
    requires
        netfn < 64,
    ensures
        NetfnLun::spec_new(netfn, lun).spec_rqseq() == netfn,
        NetfnLun::spec_new(netfn, lun).spec_netfn() == NetFn::spec_from(netfn),
        NetfnLun::spec_new(netfn, lun).spec_lun() == lun,
{
    let l = lun.spec_to_byte();
    assert(l <= 3);
    assert(((netfn << 2) | (l & 0x03u8)) >> 2 == netfn && ((netfn << 2) | (l & 0x03u8)) & 0x03u8
        == l) by (bit_vector)
        requires
            netfn < 64,
            l <= 3,
    ;
}

} // verus!
