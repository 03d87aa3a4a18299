//! Whole datagrams: the RMCP header, the session header and the payload,
//! in the clear or protected by the keys of a session.

use crate::err::{ECrypto, EPacket, Error};
use crate::helpers::{append_bytes, copy_range};
use crate::rmcp::header::RmcpHeader;
use crate::rmcp::ipmi::commands::CommandCode;
use crate::rmcp::ipmi::header::v1::IpmiV1Header;
use crate::rmcp::ipmi::header::v2::{IpmiV2Header, PayloadType};
use crate::rmcp::ipmi::header::{AuthType, IpmiHeader};
use crate::rmcp::ipmi::payload::request::{ReqPayload, ReqPayloadView};
use crate::rmcp::ipmi::payload::response::{checksums_verify, RespPayload, RespPayloadView};
use crate::rmcp::ipmi::CompletionCode;
use crate::rmcp::plus::crypto::{
    add_tailer, aes_128_cbc_decrypt, aes_128_cbc_encrypt_with_iv, aes_key, decrypted_payload,
    encrypted_len, encrypted_payload, generate_iv, integrity_pad_len, trailer_verifies,
    verify_tailer, with_trailer,
};
use crate::rmcp::plus::open_session::{RMCPPlusOpenSession, RMCPPlusOpenSessionResponse};
use crate::rmcp::plus::rakp::{
    RAKPMessage2, RAKPMessage2View, RAKPMessage4, RAKPMessage4View, Rakp, RakpView,
};
use vstd::prelude::*;

verus! {

/// The shortest datagram that holds a packet.
pub const MIN_PACKET_LEN: usize = 20;

/// The longest payload that can be protected: with the vector and a full
/// block of padding it must fit the 16-bit payload length.
pub const MAX_PROTECTED_PAYLOAD: usize = 65502;

/// What a packet carries.
#[derive(Clone, Debug, PartialEq, Eq)]
pub enum Payload {
    IpmiResp(RespPayload),
    IpmiReq(ReqPayload),
    Rmcp(RMCPPlusOpenSession),
    Rakp(Rakp),
    /// No payload at all.
    Empty,
}

/// A payload as a mathematical value.
pub enum PayloadView {
    IpmiResp(RespPayloadView),
    IpmiReq(ReqPayloadView),
    Rmcp(RMCPPlusOpenSession),
    Rakp(RakpView),
    Empty,
}

impl View for Payload {
    type V = PayloadView;

    open spec fn view(&self) -> PayloadView {
        match *self {
            Payload::IpmiResp(p) => PayloadView::IpmiResp(p@),
            Payload::IpmiReq(p) => PayloadView::IpmiReq(p@),
            Payload::Rmcp(p) => PayloadView::Rmcp(p),
            Payload::Rakp(p) => PayloadView::Rakp(p@),
            Payload::Empty => PayloadView::Empty,
        }
    }
}

impl PayloadView {
    /// Whether a console sends such a payload: a request, an open-session
    /// request, RAKP message 1 or 3, or nothing.
    pub open spec fn outbound(&self) -> bool {
        match *self {
            PayloadView::IpmiReq(_) => true,
            PayloadView::Rmcp(RMCPPlusOpenSession::Request(_)) => true,
            PayloadView::Rakp(RakpView::Message1(m)) => m.wf(),
            PayloadView::Rakp(RakpView::Message3(_)) => true,
            PayloadView::Empty => true,
            _ => false,
        }
    }

    /// The bytes of an outbound payload.
    pub open spec fn spec_bytes(&self) -> Seq<u8> {
        match *self {
            PayloadView::IpmiReq(p) => p.spec_bytes(),
            PayloadView::Rmcp(RMCPPlusOpenSession::Request(p)) => p.spec_bytes(),
            PayloadView::Rakp(RakpView::Message1(m)) => m.spec_bytes(),
            PayloadView::Rakp(RakpView::Message3(m)) => m.spec_bytes(),
            _ => Seq::<u8>::empty(),
        }
    }

    /// The type under which an outbound payload travels.
    pub open spec fn spec_payload_type(&self) -> PayloadType {
        match *self {
            PayloadView::Rmcp(RMCPPlusOpenSession::Request(_)) => PayloadType::RmcpOpenSessionRequest,
            PayloadView::Rmcp(RMCPPlusOpenSession::Response(_)) => PayloadType::RmcpOpenSessionResponse,
            PayloadView::Rakp(RakpView::Message1(_)) => PayloadType::RAKP1,
            PayloadView::Rakp(RakpView::Message2(_)) => PayloadType::RAKP2,
            PayloadView::Rakp(RakpView::Message3(_)) => PayloadType::RAKP3,
            PayloadView::Rakp(RakpView::Message4(_)) => PayloadType::RAKP4,
            _ => PayloadType::Ipmi,
        }
    }

    /// The packet that carries this payload outside any session: the
    /// default RMCP header, and a v2.0 header that is neither encrypted nor
    /// authenticated and gives the length of the payload.
    pub open spec fn unprotected(self) -> PacketView {
        PacketView {
            rmcp_header: RmcpHeader::spec_default(),
            ipmi_header: IpmiHeader::V2_0(
                IpmiV2Header::spec_new(
                    AuthType::RmcpPlus,
                    false,
                    false,
                    self.spec_payload_type(),
                    0,
                    0,
                    self.spec_bytes().len() as u16,
                ),
            ),
            payload: self,
        }
    }

    /// The payload of type `payload_type` that `bytes` hold, as a console
    /// receives it: a response, an open-session response or RAKP message 2
    /// or 4. No other type is ever sent to a console.
    pub open spec fn spec_parse(payload_type: PayloadType, bytes: Seq<u8>) -> Result<
        PayloadView,
        Error,
    > {
        match payload_type {
            PayloadType::Ipmi => match RespPayloadView::spec_parse(bytes) {
                Ok(p) => Ok(PayloadView::IpmiResp(p)),
                Err(e) => Err(e),
            },
            PayloadType::RmcpOpenSessionResponse => match RMCPPlusOpenSessionResponse::spec_parse(
                bytes,
            ) {
                Ok(p) => Ok(PayloadView::Rmcp(RMCPPlusOpenSession::Response(p))),
                Err(e) => Err(e),
            },
            PayloadType::RAKP2 => match RAKPMessage2View::spec_parse(bytes) {
                Ok(p) => Ok(PayloadView::Rakp(RakpView::Message2(p))),
                Err(e) => Err(e),
            },
            PayloadType::RAKP4 => match RAKPMessage4View::spec_parse(bytes) {
                Ok(p) => Ok(PayloadView::Rakp(RakpView::Message4(p))),
                Err(e) => Err(e),
            },
            _ => Err(Error::Packet(EPacket::Unknown)),
        }
    }

    /// The data and completion code of a response; no data and "completed
    /// normally" for any other payload.
    pub open spec fn spec_data_and_completion(&self) -> (Seq<u8>, CompletionCode) {
        match *self {
            PayloadView::IpmiResp(p) => (p.data, p.completion_code),
            _ => (Seq::<u8>::empty(), CompletionCode::CompletedNormally),
        }
    }

    /// The command of a request or of a response.
    pub open spec fn spec_command(&self) -> Option<CommandCode> {
        match *self {
            PayloadView::IpmiResp(p) => Some(p.command),
            PayloadView::IpmiReq(p) => Some(p.command),
            _ => None,
        }
    }
}

impl Payload {
    /// Whether a console sends such a payload.
    pub fn is_outbound(&self) -> (outbound: bool)
        ensures
            outbound == self@.outbound(),
    {
        match self {
            Payload::IpmiReq(_) => true,
            Payload::Rmcp(RMCPPlusOpenSession::Request(_)) => true,
            Payload::Rakp(Rakp::Message1(m)) => m.username.len() <= 16 && m.username_length as usize
                == m.username.len(),
            Payload::Rakp(Rakp::Message3(_)) => true,
            Payload::Empty => true,
            _ => false,
        }
    }

    /// Serialises an outbound payload.
    pub fn to_vec(&self) -> (bytes: Vec<u8>)
        requires
            self@.outbound(),
        ensures
            bytes@ == self@.spec_bytes(),
    {
        match self {
            Payload::IpmiReq(p) => p.to_vec(),
            Payload::Rmcp(RMCPPlusOpenSession::Request(p)) => p.to_vec(),
            Payload::Rakp(Rakp::Message1(m)) => m.to_vec(),
            Payload::Rakp(Rakp::Message3(m)) => m.to_vec(),
            _ => Vec::new(),
        }
    }

    /// Parses the payload of type `payload_type` that a console received.
    pub fn try_from(payload_type: PayloadType, value: &[u8]) -> (payload: Result<Payload, Error>)
        ensures
            match (payload, PayloadView::spec_parse(payload_type, value@)) {
                (Ok(p), Ok(v)) => p@ == v,
                (Err(e), Err(f)) => e == f,
                _ => false,
            },
    {
        match payload_type {
            PayloadType::Ipmi => match RespPayload::try_from(value) {
                Ok(p) => Ok(Payload::IpmiResp(p)),
                Err(e) => Err(e),
            },
            PayloadType::RmcpOpenSessionResponse => match RMCPPlusOpenSessionResponse::try_from(
                value,
            ) {
                Ok(p) => Ok(Payload::Rmcp(RMCPPlusOpenSession::Response(p))),
                Err(e) => Err(e),
            },
            PayloadType::RAKP2 => match RAKPMessage2::try_from(value) {
                Ok(p) => Ok(Payload::Rakp(Rakp::Message2(p))),
                Err(e) => Err(e),
            },
            PayloadType::RAKP4 => match RAKPMessage4::try_from(value) {
                Ok(p) => Ok(Payload::Rakp(Rakp::Message4(p))),
                Err(e) => Err(e),
            },
            _ => Err(Error::Packet(EPacket::Unknown)),
        }
    }

    /// The data and completion code of a response; no data and "completed
    /// normally" for any other payload.
    pub fn data_and_completion(&self) -> (out: (Vec<u8>, CompletionCode))
        ensures
            out.0@ == self@.spec_data_and_completion().0,
            out.1 == self@.spec_data_and_completion().1,
    {
        match self {
            Payload::IpmiResp(p) => (
                copy_range(p.data.as_slice(), 0, p.data.len()),
                p.completion_code,
            ),
            _ => (Vec::new(), CompletionCode::CompletedNormally),
        }
    }

    /// The command of a request or of a response.
    pub fn command(&self) -> (command: Option<CommandCode>)
        ensures
            command == self@.spec_command(),
    {
        match self {
            Payload::IpmiResp(p) => Some(p.command),
            Payload::IpmiReq(p) => Some(p.command),
            _ => None,
        }
    }
}

/// A whole packet.
#[derive(Clone, Debug, PartialEq, Eq)]
pub struct Packet {
    pub rmcp_header: RmcpHeader,
    pub ipmi_header: IpmiHeader,
    pub payload: Payload,
}

/// A packet as a mathematical value.
pub struct PacketView {
    pub rmcp_header: RmcpHeader,
    pub ipmi_header: IpmiHeader,
    pub payload: PayloadView,
}

impl View for Packet {
    type V = PacketView;

    open spec fn view(&self) -> PacketView {
        PacketView {
            rmcp_header: self.rmcp_header,
            ipmi_header: self.ipmi_header,
            payload: self.payload@,
        }
    }
}

/// The integrity key K1 and the confidentiality key K2 of a session, as
/// byte strings.
pub type KeysView = Option<(Seq<u8>, Seq<u8>)>;

/// What a datagram holds once its frame is opened: the two headers and the
/// payload in the clear.
pub struct Opened {
    pub rmcp_header: RmcpHeader,
    pub ipmi_header: IpmiHeader,
    pub payload: Seq<u8>,
}

/// Whether the bytes after the RMCP header end in a trailer that verifies
/// under `k1` and that starts right after the payload and its pad.
pub open spec fn trailer_in_place(bytes: Seq<u8>, payload_end: int, k1: Seq<u8>) -> bool {
    &&& trailer_verifies(bytes.subrange(4, bytes.len() as int), k1)
    &&& bytes.len() == payload_end + bytes[bytes.len() - 14] + 14
}

/// The payload of a datagram in the clear. With the keys of a session at
/// hand, an authenticated packet must carry a trailer that verifies, and an
/// encrypted payload is decrypted; without keys the payload is taken as it
/// stands.
pub open spec fn payload_in_clear(
    bytes: Seq<u8>,
    header: IpmiHeader,
    start: int,
    keys: KeysView,
) -> Result<Seq<u8>, Error> {
    let end = start + header.spec_payload_len();
    let raw = bytes.subrange(start, end);
    match (header, keys) {
        (IpmiHeader::V2_0(h), Some((k1, k2))) => if h.payload_auth && !trailer_in_place(
            bytes,
            end,
            k1,
        ) {
            Err(Error::Crypto(ECrypto::AuthCodeMismatch))
        } else if h.payload_enc {
            decrypted_payload(raw, k2.subrange(0, 16))
        } else {
            Ok(raw)
        },
        _ => Ok(raw),
    }
}

/// The frame of a datagram: its headers and its payload in the clear, or
/// why it has none.
pub open spec fn spec_open(bytes: Seq<u8>, keys: KeysView) -> Result<Opened, Error> {
    if bytes.len() < MIN_PACKET_LEN {
        Err(Error::Packet(EPacket::WrongLength))
    } else {
        match IpmiHeader::spec_header_len(bytes[4], bytes[5]) {
            Err(e) => Err(Error::Packet(EPacket::IpmiHeader(e))),
            Ok(header_len) => if bytes.len() < 4 + header_len {
                Err(Error::Packet(EPacket::WrongLength))
            } else {
                match IpmiHeader::spec_parse(bytes.subrange(4, 4 + header_len)) {
                    Err(e) => Err(e),
                    Ok(ipmi_header) => if bytes.len() < 4 + header_len
                        + ipmi_header.spec_payload_len() {
                        Err(Error::Packet(EPacket::WrongLength))
                    } else {
                        match RmcpHeader::spec_parse(bytes.subrange(0, 4)) {
                            Err(e) => Err(e),
                            Ok(rmcp_header) => match payload_in_clear(
                                bytes,
                                ipmi_header,
                                4 + header_len,
                                keys,
                            ) {
                                Err(e) => Err(e),
                                Ok(payload) => Ok(Opened { rmcp_header, ipmi_header, payload }),
                            },
                        }
                    },
                }
            },
        }
    }
}

impl PacketView {
    /// The packet that `bytes` hold for a console with the given keys, or
    /// why they hold none. A payload length of zero means no payload.
    pub open spec fn spec_parse(bytes: Seq<u8>, keys: KeysView) -> Result<PacketView, Error> {
        match spec_open(bytes, keys) {
            Err(e) => Err(e),
            Ok(opened) => if opened.ipmi_header.spec_payload_len() == 0 {
                Ok(
                    PacketView {
                        rmcp_header: opened.rmcp_header,
                        ipmi_header: opened.ipmi_header,
                        payload: PayloadView::Empty,
                    },
                )
            } else {
                match PayloadView::spec_parse(
                    opened.ipmi_header.spec_payload_type(),
                    opened.payload,
                ) {
                    Err(e) => Err(e),
                    Ok(payload) => Ok(
                        PacketView {
                            rmcp_header: opened.rmcp_header,
                            ipmi_header: opened.ipmi_header,
                            payload,
                        },
                    ),
                }
            },
        }
    }

    /// Whether the packet can be written in the clear.
    pub open spec fn writable(&self) -> bool {
        self.ipmi_header.wf() && self.payload.outbound()
    }

    /// The bytes of this packet in the clear.
    pub open spec fn spec_bytes(&self) -> Seq<u8> {
        self.rmcp_header.spec_bytes() + self.ipmi_header.spec_bytes() + self.payload.spec_bytes()
    }

    /// Whether the packet can be protected: it has a v2.0 header without OEM
    /// fields and an outbound payload short enough for the 16-bit length.
    pub open spec fn sealable(&self) -> bool {
        &&& self.ipmi_header matches IpmiHeader::V2_0(h) && h.wf() && h.payload_type
            != PayloadType::Oem && h.auth_type == AuthType::RmcpPlus
        &&& self.payload.outbound()
        &&& self.payload.spec_bytes().len() <= MAX_PROTECTED_PAYLOAD
    }

    /// The session header of the protected packet: that of this packet,
    /// marked as encrypted and authenticated, with the length of the vector
    /// and the ciphertext as payload length.
    pub open spec fn sealed_header(&self) -> IpmiV2Header {
        IpmiV2Header {
            payload_enc: true,
            payload_auth: true,
            payload_length: encrypted_len(self.payload.spec_bytes().len()) as u16,
            ..self.ipmi_header->V2_0_0
        }
    }

    /// The bytes of this packet protected with the keys of a session: the
    /// RMCP header, then the session header, the vector and the ciphertext,
    /// all three under the integrity trailer.
    pub open spec fn spec_sealed(&self, k1: Seq<u8>, k2: Seq<u8>, iv: Seq<u8>) -> Seq<u8> {
        self.rmcp_header.spec_bytes() + with_trailer(
            self.sealed_header().spec_bytes() + encrypted_payload(
                self.payload.spec_bytes(),
                k2.subrange(0, 16),
                iv,
            ),
            k1,
        )
    }
}

/// The keys as byte strings.
pub open spec fn keys_view(keys: Option<(&[u8; 20], &[u8; 20])>) -> KeysView {
    match keys {
        Some((k1, k2)) => Some((k1@, k2@)),
        None => None,
    }
}

impl Packet {
    pub fn new(rmcp_header: RmcpHeader, ipmi_header: IpmiHeader, payload: Payload) -> (packet:
        Packet)
        ensures
            packet.rmcp_header == rmcp_header,
            packet.ipmi_header == ipmi_header,
            packet.payload == payload,
    {
        Packet { rmcp_header, ipmi_header, payload }
    }

    /// Sets the session identifier of a v2.0 header; a v1.5 packet is left
    /// as it is.
    pub fn set_session_id(&mut self, id: u32)
        ensures
            final(self).rmcp_header == old(self).rmcp_header,
            final(self).payload == old(self).payload,
            final(self).ipmi_header == match old(self).ipmi_header {
                IpmiHeader::V2_0(h) => IpmiHeader::V2_0(
                    IpmiV2Header { rmcp_plus_session_id: id, ..h },
                ),
                other => other,
            },
    {
        match self.ipmi_header {
            IpmiHeader::V2_0(h) => {
                self.ipmi_header = IpmiHeader::V2_0(IpmiV2Header { rmcp_plus_session_id: id, ..h });
            },
            _ => {},
        }
    }

    /// Sets the session sequence number of a v2.0 header; a v1.5 packet is
    /// left as it is.
    pub fn set_session_seq_num(&mut self, seq_num: u32)
        ensures
            final(self).rmcp_header == old(self).rmcp_header,
            final(self).payload == old(self).payload,
            final(self).ipmi_header == match old(self).ipmi_header {
                IpmiHeader::V2_0(h) => IpmiHeader::V2_0(
                    IpmiV2Header { session_seq_number: seq_num, ..h },
                ),
                other => other,
            },
    {
        match self.ipmi_header {
            IpmiHeader::V2_0(h) => {
                self.ipmi_header = IpmiHeader::V2_0(
                    IpmiV2Header { session_seq_number: seq_num, ..h },
                );
            },
            _ => {},
        }
    }

    /// Serialises this packet in the clear.
    pub fn to_vec(&self) -> (bytes: Vec<u8>)
        requires
            self@.writable(),
        ensures
            bytes@ == self@.spec_bytes(),
    {
        let mut result = self.rmcp_header.to_vec();
        let header = self.ipmi_header.to_vec();
        append_bytes(&mut result, header.as_slice());
        let payload = self.payload.to_vec();
        append_bytes(&mut result, payload.as_slice());
        result
    }

    /// Whether the packet can be protected.
    pub fn is_sealable(&self) -> (sealable: bool)
        ensures
            sealable == self@.sealable(),
    {
        match self.ipmi_header {
            IpmiHeader::V2_0(h) => {
                let plain_header = match (h.payload_type, h.auth_type) {
                    (PayloadType::Oem, _) => false,
                    (_, AuthType::RmcpPlus) => h.oem_iana.is_none() && h.oem_payload_id.is_none(),
                    _ => false,
                };
                if !plain_header || !self.payload.is_outbound() {
                    return false;
                }
                let payload = self.payload.to_vec();
                payload.len() <= MAX_PROTECTED_PAYLOAD
            },
            _ => false,
        }
    }

    /// Protects this packet with the keys of a session, chaining the
    /// encryption from `iv`: the payload is padded and encrypted under the
    /// first sixteen bytes of `k2`, the payload length of the header is set
    /// to the length of vector and ciphertext, and the integrity trailer
    /// under `k1` covers all that follows the RMCP header. A packet that
    /// cannot be protected gives nothing.
    ///
    /// Opening the result with the same keys gives back the headers and the
    /// payload.
    pub fn to_encrypted_bytes_with_iv(&self, k1: &[u8; 20], k2: &[u8; 20], iv: [u8; 16]) -> (out:
        Option<Vec<u8>>)
        ensures
            out is Some <==> self@.sealable(),
            out matches Some(bytes) ==> {
                &&& bytes@ == self@.spec_sealed(k1@, k2@, iv@)
                &&& spec_open(bytes@, Some((k1@, k2@))) == Ok::<Opened, Error>(
                    Opened {
                        rmcp_header: self.rmcp_header,
                        ipmi_header: IpmiHeader::V2_0(self@.sealed_header()),
                        payload: self@.payload.spec_bytes(),
                    },
                )
            },
    {
        let header = match self.ipmi_header {
            IpmiHeader::V2_0(h) => h,
            IpmiHeader::V1_5(_) => {
                return None;
            },
        };
        let plain_header = match (header.payload_type, header.auth_type) {
            (PayloadType::Oem, _) => false,
            (_, AuthType::RmcpPlus) => header.oem_iana.is_none() && header.oem_payload_id.is_none(),
            _ => false,
        };
        if !plain_header || !self.payload.is_outbound() {
            return None;
        }
        let payload_bytes = self.payload.to_vec();
        if payload_bytes.len() > MAX_PROTECTED_PAYLOAD {
            return None;
        }
        let key = aes_key(k2);
        let encrypted_payload = aes_128_cbc_encrypt_with_iv(payload_bytes, key, iv);
        let sealed_header = IpmiV2Header {
            payload_enc: true,
            payload_auth: true,
            payload_length: encrypted_payload.len() as u16,
            ..header
        };
        let mut session_part = sealed_header.to_vec();
        append_bytes(&mut session_part, encrypted_payload.as_slice());
        add_tailer(&mut session_part, *k1);
        let mut packet_vec = self.rmcp_header.to_vec();
        append_bytes(&mut packet_vec, session_part.as_slice());
        proof {
            sealed_header.lemma_bytes_len();
            lemma_sealed_opens(
                self.rmcp_header,
                sealed_header,
                self@.payload.spec_bytes(),
                encrypted_payload@,
                k1@,
                k2@,
                session_part@,
            );
        }
        Some(packet_vec)
    }

    /// Protects this packet with the keys of a session and a fresh random
    /// vector. A packet that cannot be protected gives nothing.
    pub fn to_encrypted_bytes(&self, k1: &[u8; 20], k2: &[u8; 20]) -> (out: Option<Vec<u8>>)
        ensures
            out is Some <==> self@.sealable(),
            out matches Some(bytes) ==> {
                &&& bytes@.len() >= 32
                &&& bytes@ == self@.spec_sealed(k1@, k2@, bytes@.subrange(16, 32))
                &&& spec_open(bytes@, Some((k1@, k2@))) == Ok::<Opened, Error>(
                    Opened {
                        rmcp_header: self.rmcp_header,
                        ipmi_header: IpmiHeader::V2_0(self@.sealed_header()),
                        payload: self@.payload.spec_bytes(),
                    },
                )
            },
    {
        let iv = generate_iv();
        let out = self.to_encrypted_bytes_with_iv(k1, k2, iv);
        proof {
            if out is Some {
                let bytes = out.unwrap()@;
                self@.sealed_header().lemma_bytes_len();
                assert(bytes.subrange(16, 32) =~= iv@);
            }
        }
        out
    }

    /// Parses a datagram in the clear: whatever flags its header carries,
    /// its payload is taken as it stands.
    pub fn try_from(value: &[u8]) -> (packet: Result<Packet, Error>)
        ensures
            match (packet, PacketView::spec_parse(value@, None)) {
                (Ok(p), Ok(v)) => p@ == v,
                (Err(e), Err(f)) => e == f,
                _ => false,
            },
    {
        Packet::parse(value, None)
    }

    /// Parses a datagram of a session: the integrity trailer of an
    /// authenticated packet is verified under `k1`, and an encrypted payload
    /// is decrypted under the first sixteen bytes of `k2`.
    pub fn try_from_session(value: &[u8], k1: &[u8; 20], k2: &[u8; 20]) -> (packet: Result<
        Packet,
        Error,
    >)
        ensures
            match (packet, PacketView::spec_parse(value@, Some((k1@, k2@)))) {
                (Ok(p), Ok(v)) => p@ == v,
                (Err(e), Err(f)) => e == f,
                _ => false,
            },
    {
        Packet::parse(value, Some((k1, k2)))
    }

    /// Parses a datagram, with or without the keys of a session.
    pub fn parse(value: &[u8], keys: Option<(&[u8; 20], &[u8; 20])>) -> (packet: Result<
        Packet,
        Error,
    >)
        ensures
            match (packet, PacketView::spec_parse(value@, keys_view(keys))) {
                (Ok(p), Ok(v)) => p@ == v,
                (Err(e), Err(f)) => e == f,
                _ => false,
            },
    {
        let nbytes = value.len();
        if nbytes < MIN_PACKET_LEN {
            return Err(Error::Packet(EPacket::WrongLength));
        }
        let ipmi_header_len = match IpmiHeader::header_len(value[4], value[5]) {
            Err(e) => {
                return Err(Error::Packet(EPacket::IpmiHeader(e)));
            },
            Ok(len) => len,
        };
        if nbytes < 4 + ipmi_header_len {
            return Err(Error::Packet(EPacket::WrongLength));
        }
        let start = 4 + ipmi_header_len;
        let ipmi_header = match IpmiHeader::try_from(
            vstd::slice::slice_subrange(value, 4, start),
        ) {
            Err(e) => {
                return Err(e);
            },
            Ok(h) => h,
        };
        let payload_length = ipmi_header.payload_len();
        if nbytes < start + payload_length {
            return Err(Error::Packet(EPacket::WrongLength));
        }
        let end = start + payload_length;
        let rmcp_header = match RmcpHeader::try_from(vstd::slice::slice_subrange(value, 0, 4)) {
            Err(e) => {
                return Err(e);
            },
            Ok(h) => h,
        };
        let raw = vstd::slice::slice_subrange(value, start, end);
        let payload_vec: Vec<u8> = match (ipmi_header, keys) {
            (IpmiHeader::V2_0(h), Some((k1, k2))) => {
                if h.payload_auth {
                    let body = vstd::slice::slice_subrange(value, 4, nbytes);
                    if !verify_tailer(body, k1) {
                        return Err(Error::Crypto(ECrypto::AuthCodeMismatch));
                    }
                    assert(body@[body@.len() - 14] == value@[nbytes - 14]);
                    if nbytes != end + value[nbytes - 14] as usize + 14 {
                        return Err(Error::Crypto(ECrypto::AuthCodeMismatch));
                    }
                }
                if h.payload_enc {
                    match aes_128_cbc_decrypt(raw, aes_key(k2)) {
                        Err(e) => {
                            return Err(e);
                        },
                        Ok(plain) => plain,
                    }
                } else {
                    copy_range(value, start, end)
                }
            },
            _ => copy_range(value, start, end),
        };
        if payload_length == 0 {
            return Ok(Packet { rmcp_header, ipmi_header, payload: Payload::Empty });
        }
        match Payload::try_from(ipmi_header.payload_type(), payload_vec.as_slice()) {
            Err(e) => Err(e),
            Ok(payload) => Ok(Packet { rmcp_header, ipmi_header, payload }),
        }
    }
}

impl Default for Packet {
    /// A packet with the default RMCP header, the default v1.5 session header
    /// and no payload.
    fn default() -> (packet: Packet)
        ensures
            packet.rmcp_header == RmcpHeader::spec_default(),
            packet.ipmi_header == IpmiHeader::V1_5(IpmiV1Header::spec_default()),
            packet.payload == Payload::Empty,
    {
        Packet {
            rmcp_header: RmcpHeader::default(),
            ipmi_header: IpmiHeader::V1_5(IpmiV1Header::default()),
            payload: Payload::Empty,
        }
    }
}

/// Whatever packet a datagram holds: if its payload is an IPMI response,
/// both checksums of the response verify.
pub proof fn lemma_parsed_response_checksums(payload_type: PayloadType, plain: Seq<u8>)
    requires
        PayloadView::spec_parse(payload_type, plain) matches Ok(PayloadView::IpmiResp(_)),
    ensures
        checksums_verify(plain),
{
}

/// Opening a protected packet with the keys it was protected with gives
/// back its headers and its payload.
pub proof fn lemma_sealed_opens(
    rmcp_header: RmcpHeader,
    header: IpmiV2Header,
    payload: Seq<u8>,
    encrypted: Seq<u8>,
    k1: Seq<u8>,
    k2: Seq<u8>,
    body: Seq<u8>,
)
    requires
        header.wf(),
        header.payload_type != PayloadType::Oem,
        header.payload_length == encrypted.len(),
        header.payload_enc,
        header.payload_auth,
        header.auth_type == AuthType::RmcpPlus,
        encrypted.len() >= 32,
        decrypted_payload(encrypted, k2.subrange(0, 16)) == Ok::<Seq<u8>, Error>(payload),
        body == with_trailer(header.spec_bytes() + encrypted, k1),
        trailer_verifies(body, k1),
        body.len() == 12 + encrypted.len() + integrity_pad_len(12 + encrypted.len()) + 14,
        body[body.len() - 14] == integrity_pad_len(12 + encrypted.len()) as u8,
    ensures
        spec_open(rmcp_header.spec_bytes() + body, Some((k1, k2))) == Ok::<Opened, Error>(
            Opened { rmcp_header, ipmi_header: IpmiHeader::V2_0(header), payload },
        ),
{
    let bytes = rmcp_header.spec_bytes() + body;
    let data = header.spec_bytes() + encrypted;
    header.lemma_bytes_len();
    crate::rmcp::header::lemma_rmcp_header_round_trip(rmcp_header);
    crate::rmcp::ipmi::header::v2::lemma_v2_header_round_trip(header);
    assert(bytes.subrange(0, 4) =~= rmcp_header.spec_bytes());
    assert(bytes.subrange(4, bytes.len() as int) =~= body);
    assert(bytes.subrange(4, 16) =~= header.spec_bytes());
    assert(bytes.subrange(16, 16 + encrypted.len() as int) =~= encrypted);
    assert(bytes[4] == header.spec_bytes()[0]);
    assert(bytes[5] == header.spec_bytes()[1]);
    assert(bytes[bytes.len() - 14] == body[body.len() - 14]);
}

} // verus!
