//! Chassis commands.

pub mod boot_opt;
pub mod control;

pub use boot_opt::BootOpt;
pub use control::ChassisControl;

use crate::err::Error;
use crate::rmcp::ipmi::commands::CommandCode;
use crate::rmcp::ipmi::payload::netfn::NetFn;
use crate::rmcp::ipmi::payload::request::ReqPayload;
use crate::rmcp::ipmi::IpmiCommand;
use crate::rmcp::packet::Payload;
use vstd::prelude::*;
use crate::rmcp::ipmi::storage::sdr::{not_enough_data, short_response};

verus! {

/// The bit of the power state byte that says whether system power is on.
pub const SYSTEM_POWER: u8 = 0x01;

/// Whether the system is powered.
#[derive(Clone, Copy, Debug, PartialEq, Eq, Structural)]
pub enum PowerState {
    On,
    Off,
}

impl PowerState {
    pub open spec fn spec_from(value: u8) -> PowerState {
        if value % 2 == 1 {
            PowerState::On
        } else {
            PowerState::Off
        }
    }

    /// The power state that the lowest bit of the power state byte gives.
    pub fn from(value: u8) -> (state: PowerState)
        ensures
            state == PowerState::spec_from(value),
    {
        if value % 2 == 1 {
            PowerState::On
        } else {
            PowerState::Off
        }
    }

    pub open spec fn spec_description(&self) -> &'static str {
        match *self {
            PowerState::On => "Power is on",
            PowerState::Off => "Power is off",
        }
    }

    /// The power state in words.
    pub fn description(&self) -> (text: &'static str)
        ensures
            text == self.spec_description(),
    {
        match self {
            PowerState::On => "Power is on",
            PowerState::Off => "Power is off",
        }
    }
}

/// The command that asks for the status of the chassis.
#[derive(Clone, Copy, Debug, PartialEq, Eq, Structural)]
pub struct GetChassisStatus;

/// The status of the chassis.
#[derive(Clone, Copy, Debug, PartialEq, Eq, Structural)]
pub struct GetChassisStatusResp {
    pub p_state: PowerState,
    pub power_state: u8,
    pub last_power_event: u8,
    pub state: u8,
    pub front_control_panel: u8,
}

impl GetChassisStatusResp {
    /// The status that the first four bytes of `data` hold.
    pub open spec fn spec_parse(data: Seq<u8>) -> GetChassisStatusResp {
        GetChassisStatusResp {
            p_state: PowerState::spec_from(data[0]),
            power_state: data[0],
            last_power_event: data[1],
            state: data[2],
            front_control_panel: data[3],
        }
    }
}

impl IpmiCommand for GetChassisStatus {
    type Output = GetChassisStatusResp;

    open spec fn spec_netfn(&self) -> NetFn {
        NetFn::Chassis
    }

    open spec fn spec_command(&self) -> CommandCode {
        CommandCode::Raw(0x01)
    }

    open spec fn spec_data(&self) -> Seq<u8> {
        Seq::<u8>::empty()
    }

    open spec fn decodes(&self, data: Seq<u8>, output: GetChassisStatusResp) -> bool {
        output == GetChassisStatusResp::spec_parse(data)
    }

    open spec fn refuses(&self, data: Seq<u8>) -> Option<Error> {
        if data.len() < 4 {
            Some(not_enough_data(CommandCode::Raw(0x01), 14, data.len()))
        } else {
            None
        }
    }

    fn netfn(&self) -> (netfn: NetFn) {
        NetFn::Chassis
    }

    fn command(&self) -> (command: CommandCode) {
        CommandCode::Raw(0x01)
    }

    fn payload(&self) -> (payload: Payload) {
        Payload::IpmiReq(ReqPayload::new(self.netfn(), self.command(), Vec::new()))
    }

    fn parse(&self, data: &[u8]) -> (output: Result<GetChassisStatusResp, Error>) {
        if data.len() < 4 {
            return Err(short_response(self.command(), 14, data.len()));
        }
        Ok(
            GetChassisStatusResp {
                p_state: PowerState::from(data[0]),
                power_state: data[0],
                last_power_event: data[1],
                state: data[2],
                front_control_panel: data[3],
            },
        )
    }
}

} // verus!
