//! A command given by its raw bytes.

use crate::err::Error;
use crate::helpers::copy_range;
use crate::rmcp::ipmi::commands::CommandCode;
use crate::rmcp::ipmi::payload::bmc::Address;
use crate::rmcp::ipmi::payload::netfn::{NetFn, NetfnLun};
use crate::rmcp::ipmi::payload::request::ReqPayload;
use crate::rmcp::ipmi::payload::response::RespPayloadView;
use crate::rmcp::ipmi::{CompletionCode, IpmiCommand};
use crate::rmcp::packet::Payload;
use vstd::prelude::*;

verus! {

/// A command of which only the network function, the code and the data
/// are known.
#[derive(Clone, Debug, PartialEq, Eq)]
pub struct IpmiRawCommand {
    pub rs_addr: Address,
    pub netfn_rslun: NetfnLun,
    pub rq_addr: Address,
    pub rqseq_rqlun: NetfnLun,
    pub command: CommandCode,
    pub data: Option<Vec<u8>>,
}

/// A whole IPMI response message, as the answer to a raw command.
#[derive(Clone, Debug, PartialEq, Eq)]
pub struct IpmiRawResponse {
    pub rq_addr: Address,
    pub netfn_rqlun: NetfnLun,
    pub rs_addr: Address,
    pub rqseq_rslun: NetfnLun,
    pub command: CommandCode,
    pub completion_code: CompletionCode,
    pub data: Vec<u8>,
}

impl View for IpmiRawResponse {
    type V = RespPayloadView;

    open spec fn view(&self) -> RespPayloadView {
        RespPayloadView {
            rq_addr: self.rq_addr,
            netfn_rqlun: self.netfn_rqlun,
            rs_addr: self.rs_addr,
            rqseq_rslun: self.rqseq_rslun,
            command: self.command,
            completion_code: self.completion_code,
            data: self.data@,
        }
    }
}

impl IpmiCommand for IpmiRawCommand {
    type Output = IpmiRawResponse;

    open spec fn spec_netfn(&self) -> NetFn {
        self.netfn_rslun.spec_netfn()
    }

    open spec fn spec_command(&self) -> CommandCode {
        self.command
    }

    open spec fn spec_data(&self) -> Seq<u8> {
        match self.data {
            Some(data) => data@,
            None => Seq::<u8>::empty(),
        }
    }

    /// The answer holds a whole response message, checksums included.
    open spec fn decodes(&self, data: Seq<u8>, output: IpmiRawResponse) -> bool {
        RespPayloadView::spec_parse(data) == Ok::<RespPayloadView, Error>(output@)
    }

    open spec fn refuses(&self, data: Seq<u8>) -> Option<Error> {
        match RespPayloadView::spec_parse(data) {
            Err(e) => Some(e),
            Ok(_) => None,
        }
    }

    fn netfn(&self) -> (netfn: NetFn) {
        self.netfn_rslun.netfn()
    }

    fn command(&self) -> (command: CommandCode) {
        self.command
    }

    fn payload(&self) -> (payload: Payload) {
        let data = match &self.data {
            Some(data) => copy_range(data.as_slice(), 0, data.len()),
            None => Vec::new(),
        };
        proof {
            if self.data is Some {
                let d = self.data->Some_0@;
                assert(d.subrange(0, d.len() as int) =~= d);
            }
        }
        Payload::IpmiReq(ReqPayload::new(self.netfn(), self.command(), data))
    }

    fn parse(&self, data: &[u8]) -> (output: Result<IpmiRawResponse, Error>) {
        match crate::rmcp::ipmi::payload::response::RespPayload::try_from(data) {
            Err(e) => Err(e),
            Ok(response) => Ok(
                IpmiRawResponse {
                    rq_addr: response.rq_addr,
                    netfn_rqlun: response.netfn_rqlun,
                    rs_addr: response.rs_addr,
                    rqseq_rslun: response.rqseq_rslun,
                    command: response.command,
                    completion_code: response.completion_code,
                    data: response.data,
                },
            ),
        }
    }
}

} // verus!
