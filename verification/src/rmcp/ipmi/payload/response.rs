//! IPMI response payloads.

use crate::err::{EIpmiPayload, EPacket, Error};
use crate::helpers::{checksum, checksum_of, copy_range};
use crate::rmcp::ipmi::commands::CommandCode;
use crate::rmcp::ipmi::payload::bmc::Address;
use crate::rmcp::ipmi::payload::netfn::NetfnLun;
use crate::rmcp::ipmi::CompletionCode;
use vstd::prelude::*;

verus! {

/// An IPMI response: the message a BMC sends back to the console.
#[derive(Clone, Debug, PartialEq, Eq)]
pub struct RespPayload {
    pub rq_addr: Address,
    pub netfn_rqlun: NetfnLun,
    pub rs_addr: Address,
    pub rqseq_rslun: NetfnLun,
    pub command: CommandCode,
    pub completion_code: CompletionCode,
    pub data: Vec<u8>,
}

/// A response as a mathematical value.
pub struct RespPayloadView {
    pub rq_addr: Address,
    pub netfn_rqlun: NetfnLun,
    pub rs_addr: Address,
    pub rqseq_rslun: NetfnLun,
    pub command: CommandCode,
    pub completion_code: CompletionCode,
    pub data: Seq<u8>,
}

impl View for RespPayload {
    type V = RespPayloadView;

    open spec fn view(&self) -> RespPayloadView {
        RespPayloadView {
            rq_addr: self.rq_addr,
            netfn_rqlun: self.netfn_rqlun,
            rs_addr: self.rs_addr,
            rqseq_rslun: self.rqseq_rslun,
            command: self.command,
            completion_code: self.completion_code,
            data: self.data@,
        }
    }
}

/// Whether both checksums of the IPMI message `bytes` verify: the third
/// byte over the first two, and the last byte over all between them.
pub open spec fn checksums_verify(bytes: Seq<u8>) -> bool {
    &&& bytes.len() >= 4
    &&& checksum_of(bytes.subrange(0, 2)) == bytes[2]
    &&& checksum_of(bytes.subrange(3, bytes.len() - 1)) == bytes[bytes.len() - 1]
}

impl RespPayloadView {
    /// The response that `bytes` hold, or why they hold none.
    pub open spec fn spec_parse(bytes: Seq<u8>) -> Result<RespPayloadView, Error> {
        if bytes.len() < 8 {
            Err(Error::Packet(EPacket::IpmiPayload(EIpmiPayload::WrongLength)))
        } else if !checksums_verify(bytes) {
            Err(Error::Packet(EPacket::IpmiPayload(EIpmiPayload::Checksum)))
        } else {
            Ok(
                RespPayloadView {
                    rq_addr: Address::spec_from(bytes[0]),
                    netfn_rqlun: NetfnLun(bytes[1]),
                    rs_addr: Address::spec_from(bytes[3]),
                    rqseq_rslun: NetfnLun(bytes[4]),
                    command: CommandCode::spec_from(bytes[5]),
                    completion_code: CompletionCode::spec_from(bytes[6]),
                    data: bytes.subrange(7, bytes.len() - 1),
                },
            )
        }
    }
}

impl RespPayload {
    /// Parses a response. A response has at least eight bytes, and both of
    /// its checksums must verify.
    pub fn try_from(value: &[u8]) -> (response: Result<RespPayload, Error>)
        ensures
            match (response, RespPayloadView::spec_parse(value@)) {
                (Ok(r), Ok(v)) => r@ == v,
                (Err(e), Err(f)) => e == f,
                _ => false,
            },
            response is Ok ==> checksums_verify(value@),
    {
        let len = value.len();
        if len < 8 {
            return Err(Error::Packet(EPacket::IpmiPayload(EIpmiPayload::WrongLength)));
        }
        let first = vstd::slice::slice_subrange(value, 0, 2);
        let covered = vstd::slice::slice_subrange(value, 3, len - 1);
        if checksum(first) != value[2] || checksum(covered) != value[len - 1] {
            return Err(Error::Packet(EPacket::IpmiPayload(EIpmiPayload::Checksum)));
        }
        Ok(
            RespPayload {
                rq_addr: Address::from(value[0]),
                netfn_rqlun: NetfnLun(value[1]),
                rs_addr: Address::from(value[3]),
                rqseq_rslun: NetfnLun(value[4]),
                command: CommandCode::from(value[5]),
                completion_code: CompletionCode::from(value[6]),
                data: copy_range(value, 7, len - 1),
            },
        )
    }

    /// The length of this response on the wire: its data and the eight bytes
    /// that frame them.
    pub fn payload_length(&self) -> (len: usize)
        requires
            self.data@.len() + 8 <= usize::MAX,
        ensures
            len == self.data@.len() + 8,
    {
        self.data.len() + 8
    }
}

} // verus!
