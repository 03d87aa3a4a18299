//! The command that sets the boot device.

use crate::err::Error;
use crate::rmcp::ipmi::commands::CommandCode;
use crate::rmcp::ipmi::payload::netfn::NetFn;
use crate::rmcp::ipmi::payload::request::ReqPayload;
use crate::rmcp::ipmi::IpmiCommand;
use crate::rmcp::packet::Payload;
use vstd::prelude::*;

verus! {

/// The device to boot from next.
#[derive(Clone, Copy, Debug, PartialEq, Eq, Structural)]
pub enum BootOpt {
    Pxe,
    HardDisk,
}

impl BootOpt {
    /// The boot flags parameter (selector 5) with valid boot flags and the
    /// device selector in the second data byte.
    pub open spec fn spec_options(&self) -> Seq<u8> {
        match *self {
            BootOpt::Pxe => seq![0x05u8, 0x80u8, 0x04u8, 0x00u8, 0x00u8, 0x00u8],
            BootOpt::HardDisk => seq![0x05u8, 0x80u8, 0xc0u8, 0x00u8, 0x00u8, 0x00u8],
        }
    }

    /// The six bytes of the "set system boot options" request.
    pub fn options(&self) -> (bytes: [u8; 6])
        ensures
            bytes@ == self.spec_options(),
    {
        let bytes: [u8; 6] = match self {
            BootOpt::Pxe => [0x05, 0x80, 0x04, 0x00, 0x00, 0x00],
            BootOpt::HardDisk => [0x05, 0x80, 0xc0, 0x00, 0x00, 0x00],
        };
        assert(bytes@ =~= self.spec_options());
        bytes
    }
}

impl IpmiCommand for BootOpt {
    type Output = ();

    open spec fn spec_netfn(&self) -> NetFn {
        NetFn::Chassis
    }

    open spec fn spec_command(&self) -> CommandCode {
        CommandCode::Raw(0x08)
    }

    open spec fn spec_data(&self) -> Seq<u8> {
        self.spec_options()
    }

    open spec fn decodes(&self, data: Seq<u8>, output: ()) -> bool {
        true
    }

    open spec fn refuses(&self, data: Seq<u8>) -> Option<Error> {
        None
    }

    fn netfn(&self) -> (netfn: NetFn) {
        NetFn::Chassis
    }

    fn command(&self) -> (command: CommandCode) {
        CommandCode::Raw(0x08)
    }

    fn payload(&self) -> (payload: Payload) {
        let options = self.options();
        let mut data: Vec<u8> = Vec::new();
        crate::helpers::append_bytes(&mut data, &options);
        Payload::IpmiReq(ReqPayload::new(self.netfn(), self.command(), data))
    }

    fn parse(&self, data: &[u8]) -> (output: Result<(), Error>) {
        Ok(())
    }
}

} // verus!
