//! The chassis control command.

use crate::err::Error;
use crate::rmcp::ipmi::commands::CommandCode;
use crate::rmcp::ipmi::payload::netfn::NetFn;
use crate::rmcp::ipmi::payload::request::ReqPayload;
use crate::rmcp::ipmi::IpmiCommand;
use crate::rmcp::packet::Payload;
use vstd::prelude::*;

verus! {

/// What the chassis is told to do.
#[derive(Clone, Copy, Debug, PartialEq, Eq, Structural)]
pub enum ChassisControl {
    PowerDown,
    PowerUp,
    PowerCycle,
    PowerHardReset,
    PowerPulseDiag,
    PowerAcpiSoft,
}

impl ChassisControl {
    pub open spec fn spec_to_u8(&self) -> u8 {
        match *self {
            ChassisControl::PowerDown => 0x0,
            ChassisControl::PowerUp => 0x1,
            ChassisControl::PowerCycle => 0x2,
            ChassisControl::PowerHardReset => 0x3,
            ChassisControl::PowerPulseDiag => 0x4,
            ChassisControl::PowerAcpiSoft => 0x5,
        }
    }

    /// The code of the action.
    pub fn to_u8(&self) -> (code: u8)
        ensures
            code == self.spec_to_u8(),
    {
        match self {
            ChassisControl::PowerDown => 0x0,
            ChassisControl::PowerUp => 0x1,
            ChassisControl::PowerCycle => 0x2,
            ChassisControl::PowerHardReset => 0x3,
            ChassisControl::PowerPulseDiag => 0x4,
            ChassisControl::PowerAcpiSoft => 0x5,
        }
    }
}

impl IpmiCommand for ChassisControl {
    type Output = ();

    open spec fn spec_netfn(&self) -> NetFn {
        NetFn::Chassis
    }

    open spec fn spec_command(&self) -> CommandCode {
        CommandCode::Raw(0x02)
    }

    open spec fn spec_data(&self) -> Seq<u8> {
        seq![self.spec_to_u8()]
    }

    open spec fn decodes(&self, data: Seq<u8>, output: ()) -> bool {
        true
    }

    open spec fn refuses(&self, data: Seq<u8>) -> Option<Error> {
        None
    }

    fn netfn(&self) -> (netfn: NetFn) {
        NetFn::Chassis
    }

    fn command(&self) -> (command: CommandCode) {
        CommandCode::Raw(0x02)
    }

    fn payload(&self) -> (payload: Payload) {
        let mut data: Vec<u8> = Vec::new();
        data.push(self.to_u8());
        assert(data@ =~= seq![self.spec_to_u8()]);
        Payload::IpmiReq(ReqPayload::new(self.netfn(), self.command(), data))
    }

    fn parse(&self, data: &[u8]) -> (output: Result<(), Error>) {
        Ok(())
    }
}

} // verus!
