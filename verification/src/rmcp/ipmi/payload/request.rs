//! IPMI request payloads.

use crate::err::{EIpmiPayload, EPacket, Error};
use crate::helpers::{append_bytes, checksum, checksum_of, copy_range};
use crate::rmcp::header::RmcpHeader;
use crate::rmcp::ipmi::commands::CommandCode;
use crate::rmcp::ipmi::header::v2::IpmiV2Header;
use crate::rmcp::ipmi::header::IpmiHeader;
use crate::rmcp::ipmi::payload::bmc::{
    Address, SlaveAddress, SoftwareType, BMC_SLAVE_ADDRESS, REMOTE_SOFTWARE_ID,
};
use crate::rmcp::ipmi::payload::lun::Lun;
use crate::rmcp::ipmi::payload::netfn::{NetFn, NetfnLun};
use crate::rmcp::packet::{Packet, Payload};
use vstd::prelude::*;

verus! {

/// The requester sequence number that every request of this library carries.
pub const REQUEST_SEQUENCE: u8 = 0x08;

/// The longest request data that fits a packet: the payload length is a
/// 16-bit field, and seven bytes of it frame the data.
pub const MAX_REQUEST_DATA: usize = 65528;

/// An IPMI request: the message a console sends to the BMC.
#[derive(Clone, Debug, PartialEq, Eq)]
pub struct ReqPayload {
    pub rs_addr: Address,
    pub netfn_rslun: NetfnLun,
    pub rq_addr: Address,
    pub rqseq_rqlun: NetfnLun,
    pub command: CommandCode,
    pub data: Vec<u8>,
}

/// A request as a mathematical value.
pub struct ReqPayloadView {
    pub rs_addr: Address,
    pub netfn_rslun: NetfnLun,
    pub rq_addr: Address,
    pub rqseq_rqlun: NetfnLun,
    pub command: CommandCode,
    pub data: Seq<u8>,
}

impl View for ReqPayload {
    type V = ReqPayloadView;

    open spec fn view(&self) -> ReqPayloadView {
        ReqPayloadView {
            rs_addr: self.rs_addr,
            netfn_rslun: self.netfn_rslun,
            rq_addr: self.rq_addr,
            rqseq_rqlun: self.rqseq_rqlun,
            command: self.command,
            data: self.data@,
        }
    }
}

impl ReqPayloadView {
    /// The request for `command` of `net_fn` with `data`, addressed from the
    /// first remote console to the BMC.
    pub open spec fn new(net_fn: NetFn, command: CommandCode, data: Seq<u8>) -> ReqPayloadView {
        ReqPayloadView {
            rs_addr: Address::Slave(SlaveAddress::Bmc),
            netfn_rslun: NetfnLun::spec_new(net_fn.spec_to_byte(), Lun::Bmc),
            rq_addr: Address::Software(SoftwareType::RemoteConsoleSoftware(1)),
            rqseq_rqlun: NetfnLun::spec_new(REQUEST_SEQUENCE, Lun::Bmc),
            command,
            data,
        }
    }

    /// The part of the message that the second checksum covers.
    pub open spec fn covered(&self) -> Seq<u8> {
        seq![REMOTE_SOFTWARE_ID, self.rqseq_rqlun.0, self.command.spec_to_byte()] + self.data
    }

    /// The bytes of this request. The two addresses are always written as
    /// the BMC and the first remote console.
    pub open spec fn spec_bytes(&self) -> Seq<u8> {
        seq![
            BMC_SLAVE_ADDRESS,
            self.netfn_rslun.0,
            checksum_of(seq![BMC_SLAVE_ADDRESS, self.netfn_rslun.0]),
        ] + self.covered() + seq![checksum_of(self.covered())]
    }

    /// Whether reading the bytes of this request gives it back: its
    /// addresses are the two that are written, and its command is not a raw
    /// code that has a name of its own.
    pub open spec fn canonical(&self) -> bool {
        &&& self.rs_addr == Address::Slave(SlaveAddress::Bmc)
        &&& self.rq_addr == Address::Software(SoftwareType::RemoteConsoleSoftware(1))
        &&& CommandCode::spec_from(self.command.spec_to_byte()) == self.command
    }

    /// The request that `bytes` hold, or why they hold none.
    pub open spec fn spec_parse(bytes: Seq<u8>) -> Result<ReqPayloadView, Error> {
        if bytes.len() < 7 {
            Err(Error::Packet(EPacket::IpmiPayload(EIpmiPayload::WrongLength)))
        } else if checksum_of(bytes.subrange(0, 2)) != bytes[2] || checksum_of(
            bytes.subrange(3, bytes.len() - 1),
        ) != bytes[bytes.len() - 1] {
            Err(Error::Packet(EPacket::IpmiPayload(EIpmiPayload::Checksum)))
        } else {
            Ok(
                ReqPayloadView {
                    rs_addr: Address::spec_from(bytes[0]),
                    netfn_rslun: NetfnLun(bytes[1]),
                    rq_addr: Address::spec_from(bytes[3]),
                    rqseq_rqlun: NetfnLun(bytes[4]),
                    command: CommandCode::spec_from(bytes[5]),
                    data: bytes.subrange(6, bytes.len() - 1),
                },
            )
        }
    }
}

impl ReqPayload {
    /// The request for `command` of `net_fn` with `data`: from the first
    /// remote console (0x81) to the BMC (0x20), requester sequence number 8.
    pub fn new(net_fn: NetFn, command: CommandCode, data: Vec<u8>) -> (request: ReqPayload)
        ensures
            request@ == ReqPayloadView::new(net_fn, command, data@),
    {
        ReqPayload {
            rs_addr: Address::Slave(SlaveAddress::Bmc),
            netfn_rslun: NetfnLun::new(net_fn.to_byte(), Lun::Bmc),
            rq_addr: Address::Software(SoftwareType::RemoteConsoleSoftware(1)),
            rqseq_rqlun: NetfnLun::new(REQUEST_SEQUENCE, Lun::Bmc),
            command,
            data,
        }
    }

    /// Serialises this request with both checksums.
    pub fn to_vec(&self) -> (bytes: Vec<u8>)
        ensures
            bytes@ == self@.spec_bytes(),
            bytes@.len() == self.data@.len() + 7,
    {
        let first = [BMC_SLAVE_ADDRESS, self.netfn_rslun.0];
        assert(first@ =~= seq![BMC_SLAVE_ADDRESS, self.netfn_rslun.0]);
        let mut out: Vec<u8> = Vec::new();
        out.push(BMC_SLAVE_ADDRESS);
        out.push(self.netfn_rslun.0);
        out.push(checksum(&first));
        let mut covered: Vec<u8> = Vec::new();
        covered.push(REMOTE_SOFTWARE_ID);
        covered.push(self.rqseq_rqlun.0);
        covered.push(self.command.to_byte());
        append_bytes(&mut covered, self.data.as_slice());
        assert(covered@ =~= self@.covered());
        let second = checksum(covered.as_slice());
        append_bytes(&mut out, covered.as_slice());
        out.push(second);
        assert(out@ =~= self@.spec_bytes());
        out
    }

    /// Parses a request, verifying both checksums.
    pub fn try_from(value: &[u8]) -> (request: Result<ReqPayload, Error>)
        ensures
            match (request, ReqPayloadView::spec_parse(value@)) {
                (Ok(r), Ok(v)) => r@ == v,
                (Err(e), Err(f)) => e == f,
                _ => false,
            },
    {
        let len = value.len();
        if len < 7 {
            return Err(Error::Packet(EPacket::IpmiPayload(EIpmiPayload::WrongLength)));
        }
        let first = vstd::slice::slice_subrange(value, 0, 2);
        let covered = vstd::slice::slice_subrange(value, 3, len - 1);
        if checksum(first) != value[2] || checksum(covered) != value[len - 1] {
            return Err(Error::Packet(EPacket::IpmiPayload(EIpmiPayload::Checksum)));
        }
        Ok(
            ReqPayload {
                rs_addr: Address::from(value[0]),
                netfn_rslun: NetfnLun(value[1]),
                rq_addr: Address::from(value[3]),
                rqseq_rqlun: NetfnLun(value[4]),
                command: CommandCode::from(value[5]),
                data: copy_range(value, 6, len - 1),
            },
        )
    }
}

impl Default for ReqPayload {
    /// A request for the channel authentication capabilities, with
    /// requester sequence number 0 and no data.
    fn default() -> (request: ReqPayload)
        ensures
            request@ == (ReqPayloadView {
                rqseq_rqlun: NetfnLun::spec_new(0, Lun::Bmc),
                ..ReqPayloadView::new(
                    NetFn::App,
                    CommandCode::GetChannelAuthCapabilities,
                    Seq::<u8>::empty(),
                )
            }),
    {
        ReqPayload {
            rs_addr: Address::Slave(SlaveAddress::Bmc),
            netfn_rslun: NetfnLun::new((NetFn::App).to_byte(), Lun::Bmc),
            rq_addr: Address::Software(SoftwareType::RemoteConsoleSoftware(1)),
            rqseq_rqlun: NetfnLun::new(0x00, Lun::Bmc),
            command: CommandCode::GetChannelAuthCapabilities,
            data: Vec::new(),
        }
    }
}

/// Reading the bytes of a canonical request gives the request back, and both
/// of its checksums verify.
pub proof fn lemma_request_round_trip(request: ReqPayloadView)
    requires
        request.canonical(),
    ensures
        ReqPayloadView::spec_parse(request.spec_bytes()) == Ok::<ReqPayloadView, Error>(request),
{
    let b = request.spec_bytes();
    let n = b.len() as int;
    assert(n == request.data.len() + 7);
    assert(b.subrange(0, 2) =~= seq![BMC_SLAVE_ADDRESS, request.netfn_rslun.0]);
    assert(b.subrange(3, n - 1) =~= request.covered());
    assert(b.subrange(6, n - 1) =~= request.data);
    assert(b[0] == BMC_SLAVE_ADDRESS);
    assert(b[3] == REMOTE_SOFTWARE_ID);
    assert(b[5] == request.command.spec_to_byte());
    crate::rmcp::ipmi::payload::bmc::lemma_request_addresses();
}

/// A request given by network function, command and data, ready to be framed
/// for an established session.
#[derive(Clone, Debug, PartialEq, Eq)]
pub struct IpmiRawRequest {
    pub netfn: NetFn,
    pub command: CommandCode,
    pub data: Vec<u8>,
}

impl IpmiRawRequest {
    pub fn new(netfn: NetFn, command: CommandCode, data: Vec<u8>) -> (request: IpmiRawRequest)
        ensures
            request.netfn == netfn,
            request.command == command,
            request.data@ == data@,
    {
        IpmiRawRequest { netfn, command, data }
    }

    /// The packet that carries this request inside an established session.
    /// Session identifier, sequence number and the final payload length are
    /// filled in when the packet is sent.
    pub fn create_packet(self) -> (packet: Packet)
        requires
            self.data@.len() <= MAX_REQUEST_DATA,
        ensures
            packet.rmcp_header == RmcpHeader::spec_default(),
            packet.ipmi_header == IpmiHeader::V2_0(
                IpmiV2Header::spec_new(
                    crate::rmcp::ipmi::header::AuthType::RmcpPlus,
                    true,
                    true,
                    crate::rmcp::ipmi::header::v2::PayloadType::Ipmi,
                    0,
                    0,
                    (7 + self.data@.len()) as u16,
                ),
            ),
            packet.payload matches Payload::IpmiReq(r) && r@ == ReqPayloadView::new(
                self.netfn,
                self.command,
                self.data@,
            ),
    {
        let len = (7 + self.data.len()) as u16;
        Packet::new(
            RmcpHeader::default(),
            IpmiHeader::V2_0(IpmiV2Header::new_est(len)),
            Payload::IpmiReq(ReqPayload::new(self.netfn, self.command, self.data)),
        )
    }
}

} // verus!
