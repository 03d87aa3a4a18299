//! The cipher suites command, which lists the suites a channel supports
//! sixteen bytes at a time.

use crate::err::{EIpmiPayload, EPacket, Error};
use crate::helpers::copy_range;
use crate::rmcp::header::RmcpHeader;
use crate::rmcp::ipmi::commands::CommandCode;
use crate::rmcp::ipmi::header::v2::{IpmiV2Header, PayloadType};
use crate::rmcp::ipmi::header::{AuthType, IpmiHeader};
use crate::rmcp::ipmi::payload::netfn::NetFn;
use crate::rmcp::ipmi::payload::request::{ReqPayload, ReqPayloadView};
use crate::rmcp::packet::{Packet, Payload};
use vstd::prelude::*;

verus! {

/// The request for one part of the list of cipher suites.
#[derive(Clone, Copy, Debug, PartialEq, Eq, Structural)]
pub struct GetChannelCipherSuitesRequest {
    pub channel_number: u8,
    pub payload_type: PayloadType,
    /// Whether the suites are listed by algorithm rather than by number.
    pub list_algo_cipher_suite: bool,
    /// Which sixteen bytes of the list are asked for.
    pub list_index: u8,
}

impl GetChannelCipherSuitesRequest {
    pub fn new(
        channel_number: u8,
        payload_type: PayloadType,
        list_algo_cipher_suite: bool,
        list_index: u8,
    ) -> (request: GetChannelCipherSuitesRequest)
        ensures
            request == (GetChannelCipherSuitesRequest {
                channel_number,
                payload_type,
                list_algo_cipher_suite,
                list_index,
            }),
    {
        GetChannelCipherSuitesRequest {
            channel_number,
            payload_type,
            list_algo_cipher_suite,
            list_index,
        }
    }

    /// The three data bytes of the request: the low four bits of the
    /// channel number, the low five bits of the payload type, and the list
    /// flag above the low six bits of the list index.
    pub open spec fn spec_bytes(&self) -> Seq<u8> {
        seq![
            (self.channel_number % 16) as u8,
            (self.payload_type.spec_to_byte() % 32) as u8,
            ((if self.list_algo_cipher_suite {
                128int
            } else {
                0int
            }) + self.list_index % 64) as u8,
        ]
    }

    /// Serialises the data of the request.
    pub fn to_vec(&self) -> (bytes: Vec<u8>)
        ensures
            bytes@ == self.spec_bytes(),
    {
        let flag: u8 = if self.list_algo_cipher_suite {
            128
        } else {
            0
        };
        let mut out: Vec<u8> = Vec::new();
        out.push(self.channel_number % 16);
        out.push(self.payload_type.to_byte() % 32);
        out.push(flag + self.list_index % 64);
        assert(out@ =~= self.spec_bytes());
        out
    }

    /// The unauthenticated IPMI v2.0 packet that carries the request.
    pub fn create_packet(self) -> (packet: Packet)
        ensures
            packet.rmcp_header == RmcpHeader::spec_default(),
            packet.ipmi_header == IpmiHeader::V2_0(
                IpmiV2Header::spec_new(
                    AuthType::RmcpPlus,
                    false,
                    false,
                    PayloadType::Ipmi,
                    0,
                    0,
                    10,
                ),
            ),
            packet.payload matches Payload::IpmiReq(r) && r@ == ReqPayloadView::new(
                NetFn::App,
                CommandCode::GetChannelCipherSuites,
                self.spec_bytes(),
            ),
    {
        let data_bytes = self.to_vec();
        Packet::new(
            RmcpHeader::default(),
            IpmiHeader::V2_0(IpmiV2Header::new_pre(PayloadType::Ipmi, 10)),
            Payload::IpmiReq(
                ReqPayload::new(NetFn::App, CommandCode::GetChannelCipherSuites, data_bytes),
            ),
        )
    }

    pub open spec fn spec_default() -> GetChannelCipherSuitesRequest {
        GetChannelCipherSuitesRequest {
            channel_number: 0xe,
            payload_type: PayloadType::Ipmi,
            list_algo_cipher_suite: true,
            list_index: 0,
        }
    }
}

impl Default for GetChannelCipherSuitesRequest {
    /// The request for the start of the list, by algorithm, of the channel
    /// the request arrives on.
    fn default() -> (request: GetChannelCipherSuitesRequest)
        ensures
            request == GetChannelCipherSuitesRequest::spec_default(),
    {
        GetChannelCipherSuitesRequest {
            channel_number: 0xe,
            payload_type: PayloadType::Ipmi,
            list_algo_cipher_suite: true,
            list_index: 0,
        }
    }
}

/// One part of the list of cipher suites: the channel the list is for and
/// up to sixteen bytes of packed cipher suite records.
#[derive(Clone, Debug, PartialEq, Eq)]
pub struct GetChannelCipherSuitesResponse {
    pub channel_number: u8,
    pub cypher_suite_record_data_bytes: Vec<u8>,
}

impl GetChannelCipherSuitesResponse {
    /// Parses a part of the list: a channel number and at least one byte.
    pub fn try_from(value: &[u8]) -> (response: Result<GetChannelCipherSuitesResponse, Error>)
        ensures
            value@.len() < 2 ==> response == Err::<GetChannelCipherSuitesResponse, Error>(
                Error::Packet(EPacket::IpmiPayload(EIpmiPayload::WrongLength)),
            ),
            value@.len() >= 2 ==> (response matches Ok(r) && r.channel_number == value@[0]
                && r.cypher_suite_record_data_bytes@ == value@.subrange(1, value@.len() as int)),
    {
        if value.len() < 2 {
            return Err(Error::Packet(EPacket::IpmiPayload(EIpmiPayload::WrongLength)));
        }
        Ok(
            GetChannelCipherSuitesResponse {
                channel_number: value[0],
                cypher_suite_record_data_bytes: copy_range(value, 1, value.len()),
            },
        )
    }

    /// Whether this is the last part of the list: it holds fewer than sixteen
    /// bytes of records.
    pub fn is_last(&self) -> (last: bool)
        ensures
            last == (self.cypher_suite_record_data_bytes@.len() < 16),
    {
        self.cypher_suite_record_data_bytes.len() < 16
    }
}

} // verus!
