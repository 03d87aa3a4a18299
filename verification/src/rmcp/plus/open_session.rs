//! The RMCP+ open-session exchange, which negotiates the cipher suite.

use crate::err::{ECommand, EIpmiPayload, EPacket, Error};
use crate::helpers::{
    append_u32_to_vec, le_value, lemma_le_bytes_len, lemma_le_value_of_bytes, lemma_pow256_values,
    read_u32_le, u32_le,
};
use crate::rmcp::header::RmcpHeader;
use crate::rmcp::ipmi::commands::app::channel::Privilege;
use crate::rmcp::ipmi::header::v2::{IpmiV2Header, PayloadType};
use crate::rmcp::ipmi::header::{AuthType, IpmiHeader};
use crate::rmcp::packet::{Packet, Payload};
use vstd::prelude::*;

verus! {

/// The status byte of an open-session response or of a RAKP message.
#[derive(Clone, Copy, Debug, PartialEq, Eq, Structural)]
pub enum StatusCode {
    NoErrors,
    InsufficientResources,
    InvalidSessionId,
    InvalidPayloadType,
    InvalidAuthAlgorithm,
    InvalidIntegrityAlgorithm,
    NoMatchingAuthPayload,
    NoMatchingIntegrityPayload,
    InactiveSessionId,
    InvalidRole,
    UnauthorizedRoleRequested,
    InsufficientResourcesForRole,
    InvalidNameLength,
    UnauthorizedName,
    UnauthorizedGUID,
    InvalidIntegrityCheckValue,
    InvalidConfidentialityAlgorithm,
    NoCipherSuiteMatch,
    IllegalParameter,
    Reserved(u8),
}

impl StatusCode {
    /// The status code that the byte `value` names.
    pub open spec fn spec_from(value: u8) -> StatusCode {
        if value == 0x00 {
            StatusCode::NoErrors
        } else if value == 0x01 {
            StatusCode::InsufficientResources
        } else if value == 0x02 {
            StatusCode::InvalidSessionId
        } else if value == 0x03 {
            StatusCode::InvalidPayloadType
        } else if value == 0x04 {
            StatusCode::InvalidAuthAlgorithm
        } else if value == 0x05 {
            StatusCode::InvalidIntegrityAlgorithm
        } else if value == 0x06 {
            StatusCode::NoMatchingAuthPayload
        } else if value == 0x07 {
            StatusCode::NoMatchingIntegrityPayload
        } else if value == 0x08 {
            StatusCode::InactiveSessionId
        } else if value == 0x09 {
            StatusCode::InvalidRole
        } else if value == 0x0a {
            StatusCode::UnauthorizedRoleRequested
        } else if value == 0x0b {
            StatusCode::InsufficientResourcesForRole
        } else if value == 0x0c {
            StatusCode::InvalidNameLength
        } else if value == 0x0d {
            StatusCode::UnauthorizedName
        } else if value == 0x0e {
            StatusCode::UnauthorizedGUID
        } else if value == 0x0f {
            StatusCode::InvalidIntegrityCheckValue
        } else if value == 0x10 {
            StatusCode::InvalidConfidentialityAlgorithm
        } else if value == 0x11 {
            StatusCode::NoCipherSuiteMatch
        } else if value == 0x12 {
            StatusCode::IllegalParameter
        } else {
            StatusCode::Reserved(value)
        }
    }

    /// The status code that the byte `value` names.
    pub fn from(value: u8) -> (converted: StatusCode)
        ensures
            converted == StatusCode::spec_from(value),
    {
        if value == 0x00 {
            StatusCode::NoErrors
        } else if value == 0x01 {
            StatusCode::InsufficientResources
        } else if value == 0x02 {
            StatusCode::InvalidSessionId
        } else if value == 0x03 {
            StatusCode::InvalidPayloadType
        } else if value == 0x04 {
            StatusCode::InvalidAuthAlgorithm
        } else if value == 0x05 {
            StatusCode::InvalidIntegrityAlgorithm
        } else if value == 0x06 {
            StatusCode::NoMatchingAuthPayload
        } else if value == 0x07 {
            StatusCode::NoMatchingIntegrityPayload
        } else if value == 0x08 {
            StatusCode::InactiveSessionId
        } else if value == 0x09 {
            StatusCode::InvalidRole
        } else if value == 0x0a {
            StatusCode::UnauthorizedRoleRequested
        } else if value == 0x0b {
            StatusCode::InsufficientResourcesForRole
        } else if value == 0x0c {
            StatusCode::InvalidNameLength
        } else if value == 0x0d {
            StatusCode::UnauthorizedName
        } else if value == 0x0e {
            StatusCode::UnauthorizedGUID
        } else if value == 0x0f {
            StatusCode::InvalidIntegrityCheckValue
        } else if value == 0x10 {
            StatusCode::InvalidConfidentialityAlgorithm
        } else if value == 0x11 {
            StatusCode::NoCipherSuiteMatch
        } else if value == 0x12 {
            StatusCode::IllegalParameter
        } else {
            StatusCode::Reserved(value)
        }
    }

    /// The byte that names this status code.
    pub open spec fn spec_to_byte(&self) -> u8 {
        match *self {
            StatusCode::NoErrors => 0x00,
            StatusCode::InsufficientResources => 0x01,
            StatusCode::InvalidSessionId => 0x02,
            StatusCode::InvalidPayloadType => 0x03,
            StatusCode::InvalidAuthAlgorithm => 0x04,
            StatusCode::InvalidIntegrityAlgorithm => 0x05,
            StatusCode::NoMatchingAuthPayload => 0x06,
            StatusCode::NoMatchingIntegrityPayload => 0x07,
            StatusCode::InactiveSessionId => 0x08,
            StatusCode::InvalidRole => 0x09,
            StatusCode::UnauthorizedRoleRequested => 0x0a,
            StatusCode::InsufficientResourcesForRole => 0x0b,
            StatusCode::InvalidNameLength => 0x0c,
            StatusCode::UnauthorizedName => 0x0d,
            StatusCode::UnauthorizedGUID => 0x0e,
            StatusCode::InvalidIntegrityCheckValue => 0x0f,
            StatusCode::InvalidConfidentialityAlgorithm => 0x10,
            StatusCode::NoCipherSuiteMatch => 0x11,
            StatusCode::IllegalParameter => 0x12,
            StatusCode::Reserved(code) => code,
        }
    }

    /// The byte that names this status code.
    pub fn to_byte(&self) -> (byte: u8)
        ensures
            byte == self.spec_to_byte(),
    {
        match *self {
            StatusCode::NoErrors => 0x00,
            StatusCode::InsufficientResources => 0x01,
            StatusCode::InvalidSessionId => 0x02,
            StatusCode::InvalidPayloadType => 0x03,
            StatusCode::InvalidAuthAlgorithm => 0x04,
            StatusCode::InvalidIntegrityAlgorithm => 0x05,
            StatusCode::NoMatchingAuthPayload => 0x06,
            StatusCode::NoMatchingIntegrityPayload => 0x07,
            StatusCode::InactiveSessionId => 0x08,
            StatusCode::InvalidRole => 0x09,
            StatusCode::UnauthorizedRoleRequested => 0x0a,
            StatusCode::InsufficientResourcesForRole => 0x0b,
            StatusCode::InvalidNameLength => 0x0c,
            StatusCode::UnauthorizedName => 0x0d,
            StatusCode::UnauthorizedGUID => 0x0e,
            StatusCode::InvalidIntegrityCheckValue => 0x0f,
            StatusCode::InvalidConfidentialityAlgorithm => 0x10,
            StatusCode::NoCipherSuiteMatch => 0x11,
            StatusCode::IllegalParameter => 0x12,
            StatusCode::Reserved(code) => code,
        }
    }
}

/// The algorithm that authenticates the key exchange.
#[derive(Clone, Copy, Debug, PartialEq, Eq, Structural)]
pub enum AuthAlgorithm {
    RakpNone,
    RakpHmacSha1,
    RakpHmacMd5,
    RakpHmacSha256,
    Oem(u8),
}

impl AuthAlgorithm {
    /// The authentication algorithm that the byte `value` names, if it names one.
    pub open spec fn spec_try_from(value: u8) -> Result<AuthAlgorithm, EIpmiPayload> {
        if value == 0x00 {
            Ok(AuthAlgorithm::RakpNone)
        } else if value == 0x01 {
            Ok(AuthAlgorithm::RakpHmacSha1)
        } else if value == 0x02 {
            Ok(AuthAlgorithm::RakpHmacMd5)
        } else if value == 0x03 {
            Ok(AuthAlgorithm::RakpHmacSha256)
        } else if value >= 0xc0 {
            Ok(AuthAlgorithm::Oem(value))
        } else {
            Err(EIpmiPayload::Command(ECommand::UnknownAuthAlgorithm(value)))
        }
    }

    /// The authentication algorithm that the byte `value` names, if it names one.
    pub fn try_from(value: u8) -> (converted: Result<AuthAlgorithm, EIpmiPayload>)
        ensures
            converted == AuthAlgorithm::spec_try_from(value),
    {
        if value == 0x00 {
            Ok(AuthAlgorithm::RakpNone)
        } else if value == 0x01 {
            Ok(AuthAlgorithm::RakpHmacSha1)
        } else if value == 0x02 {
            Ok(AuthAlgorithm::RakpHmacMd5)
        } else if value == 0x03 {
            Ok(AuthAlgorithm::RakpHmacSha256)
        } else if value >= 0xc0 {
            Ok(AuthAlgorithm::Oem(value))
        } else {
            Err(EIpmiPayload::Command(ECommand::UnknownAuthAlgorithm(value)))
        }
    }

    /// The byte that names this authentication algorithm.
    pub open spec fn spec_to_byte(&self) -> u8 {
        match *self {
            AuthAlgorithm::RakpNone => 0x00,
            AuthAlgorithm::RakpHmacSha1 => 0x01,
            AuthAlgorithm::RakpHmacMd5 => 0x02,
            AuthAlgorithm::RakpHmacSha256 => 0x03,
            AuthAlgorithm::Oem(code) => code,
        }
    }

    /// The byte that names this authentication algorithm.
    pub fn to_byte(&self) -> (byte: u8)
        ensures
            byte == self.spec_to_byte(),
    {
        match *self {
            AuthAlgorithm::RakpNone => 0x00,
            AuthAlgorithm::RakpHmacSha1 => 0x01,
            AuthAlgorithm::RakpHmacMd5 => 0x02,
            AuthAlgorithm::RakpHmacSha256 => 0x03,
            AuthAlgorithm::Oem(code) => code,
        }
    }
}

/// The algorithm that authenticates each packet of a session.
#[derive(Clone, Copy, Debug, PartialEq, Eq, Structural)]
pub enum IntegrityAlgorithm {
    NoIntegrity,
    HmacSha196,
    HmacMd5128,
    Md5128,
    HmacSha256128,
    Oem(u8),
}

impl IntegrityAlgorithm {
    /// The integrity algorithm that the byte `value` names, if it names one.
    pub open spec fn spec_try_from(value: u8) -> Result<IntegrityAlgorithm, EIpmiPayload> {
        if value == 0x00 {
            Ok(IntegrityAlgorithm::NoIntegrity)
        } else if value == 0x01 {
            Ok(IntegrityAlgorithm::HmacSha196)
        } else if value == 0x02 {
            Ok(IntegrityAlgorithm::HmacMd5128)
        } else if value == 0x03 {
            Ok(IntegrityAlgorithm::Md5128)
        } else if value == 0x04 {
            Ok(IntegrityAlgorithm::HmacSha256128)
        } else if value >= 0xc0 {
            Ok(IntegrityAlgorithm::Oem(value))
        } else {
            Err(EIpmiPayload::Command(ECommand::UnknownIntegrityAlgorithm(value)))
        }
    }

    /// The integrity algorithm that the byte `value` names, if it names one.
    pub fn try_from(value: u8) -> (converted: Result<IntegrityAlgorithm, EIpmiPayload>)
        ensures
            converted == IntegrityAlgorithm::spec_try_from(value),
    {
        if value == 0x00 {
            Ok(IntegrityAlgorithm::NoIntegrity)
        } else if value == 0x01 {
            Ok(IntegrityAlgorithm::HmacSha196)
        } else if value == 0x02 {
            Ok(IntegrityAlgorithm::HmacMd5128)
        } else if value == 0x03 {
            Ok(IntegrityAlgorithm::Md5128)
        } else if value == 0x04 {
            Ok(IntegrityAlgorithm::HmacSha256128)
        } else if value >= 0xc0 {
            Ok(IntegrityAlgorithm::Oem(value))
        } else {
            Err(EIpmiPayload::Command(ECommand::UnknownIntegrityAlgorithm(value)))
        }
    }

    /// The byte that names this integrity algorithm.
    pub open spec fn spec_to_byte(&self) -> u8 {
        match *self {
            IntegrityAlgorithm::NoIntegrity => 0x00,
            IntegrityAlgorithm::HmacSha196 => 0x01,
            IntegrityAlgorithm::HmacMd5128 => 0x02,
            IntegrityAlgorithm::Md5128 => 0x03,
            IntegrityAlgorithm::HmacSha256128 => 0x04,
            IntegrityAlgorithm::Oem(code) => code,
        }
    }

    /// The byte that names this integrity algorithm.
    pub fn to_byte(&self) -> (byte: u8)
        ensures
            byte == self.spec_to_byte(),
    {
        match *self {
            IntegrityAlgorithm::NoIntegrity => 0x00,
            IntegrityAlgorithm::HmacSha196 => 0x01,
            IntegrityAlgorithm::HmacMd5128 => 0x02,
            IntegrityAlgorithm::Md5128 => 0x03,
            IntegrityAlgorithm::HmacSha256128 => 0x04,
            IntegrityAlgorithm::Oem(code) => code,
        }
    }
}

/// The algorithm that encrypts the payloads of a session.
#[derive(Clone, Copy, Debug, PartialEq, Eq, Structural)]
pub enum ConfidentialityAlgorithm {
    NoConfidentiality,
    AesCbc128,
    XRc4128,
    XRc440,
    Oem(u8),
}

impl ConfidentialityAlgorithm {
    /// The confidentiality algorithm that the byte `value` names, if it names one.
    pub open spec fn spec_try_from(value: u8) -> Result<ConfidentialityAlgorithm, EIpmiPayload> {
        if value == 0x00 {
            Ok(ConfidentialityAlgorithm::NoConfidentiality)
        } else if value == 0x01 {
            Ok(ConfidentialityAlgorithm::AesCbc128)
        } else if value == 0x02 {
            Ok(ConfidentialityAlgorithm::XRc4128)
        } else if value == 0x03 {
            Ok(ConfidentialityAlgorithm::XRc440)
        } else if value >= 0x30 {
            Ok(ConfidentialityAlgorithm::Oem(value))
        } else {
            Err(EIpmiPayload::Command(ECommand::UnknownConfidentialityAlgorithm(value)))
        }
    }

    /// The confidentiality algorithm that the byte `value` names, if it names one.
    pub fn try_from(value: u8) -> (converted: Result<ConfidentialityAlgorithm, EIpmiPayload>)
        ensures
            converted == ConfidentialityAlgorithm::spec_try_from(value),
    {
        if value == 0x00 {
            Ok(ConfidentialityAlgorithm::NoConfidentiality)
        } else if value == 0x01 {
            Ok(ConfidentialityAlgorithm::AesCbc128)
        } else if value == 0x02 {
            Ok(ConfidentialityAlgorithm::XRc4128)
        } else if value == 0x03 {
            Ok(ConfidentialityAlgorithm::XRc440)
        } else if value >= 0x30 {
            Ok(ConfidentialityAlgorithm::Oem(value))
        } else {
            Err(EIpmiPayload::Command(ECommand::UnknownConfidentialityAlgorithm(value)))
        }
    }

    /// The byte that names this confidentiality algorithm.
    pub open spec fn spec_to_byte(&self) -> u8 {
        match *self {
            ConfidentialityAlgorithm::NoConfidentiality => 0x00,
            ConfidentialityAlgorithm::AesCbc128 => 0x01,
            ConfidentialityAlgorithm::XRc4128 => 0x02,
            ConfidentialityAlgorithm::XRc440 => 0x03,
            ConfidentialityAlgorithm::Oem(code) => code,
        }
    }

    /// The byte that names this confidentiality algorithm.
    pub fn to_byte(&self) -> (byte: u8)
        ensures
            byte == self.spec_to_byte(),
    {
        match *self {
            ConfidentialityAlgorithm::NoConfidentiality => 0x00,
            ConfidentialityAlgorithm::AesCbc128 => 0x01,
            ConfidentialityAlgorithm::XRc4128 => 0x02,
            ConfidentialityAlgorithm::XRc440 => 0x03,
            ConfidentialityAlgorithm::Oem(code) => code,
        }
    }
}

impl AuthAlgorithm {
    /// Whether writing this algorithm and reading it back gives it again: an
    /// OEM algorithm holds a code of the OEM range.
    pub open spec fn canonical(&self) -> bool {
        AuthAlgorithm::spec_try_from(self.spec_to_byte()) == Ok::<AuthAlgorithm, EIpmiPayload>(*self)
    }
}

impl IntegrityAlgorithm {
    /// Whether writing this algorithm and reading it back gives it again.
    pub open spec fn canonical(&self) -> bool {
        IntegrityAlgorithm::spec_try_from(self.spec_to_byte()) == Ok::<
            IntegrityAlgorithm,
            EIpmiPayload,
        >(*self)
    }
}

impl ConfidentialityAlgorithm {
    /// Whether writing this algorithm and reading it back gives it again.
    pub open spec fn canonical(&self) -> bool {
        ConfidentialityAlgorithm::spec_try_from(self.spec_to_byte()) == Ok::<
            ConfidentialityAlgorithm,
            EIpmiPayload,
        >(*self)
    }
}

/// Either message of the open-session exchange.
#[derive(Clone, Copy, Debug, PartialEq, Eq, Structural)]
pub enum RMCPPlusOpenSession {
    Request(RMCPPlusOpenSessionRequest),
    Response(RMCPPlusOpenSessionResponse),
}

/// The request that opens an RMCP+ session: the console's session
/// identifier, the role it asks for and one proposal for each algorithm.
#[derive(Clone, Copy, Debug, PartialEq, Eq, Structural)]
pub struct RMCPPlusOpenSessionRequest {
    /// Chosen by the console; the BMC returns it in its response.
    pub message_tag: u8,
    /// The requested maximum privilege level.
    pub max_privilege: Privilege,
    /// The identifier under which the console receives the session's packets.
    pub remote_console_session_id: u32,
    pub authentication_algorithm: AuthAlgorithm,
    pub integrity_algorithm: IntegrityAlgorithm,
    pub confidentiality_algorithm: ConfidentialityAlgorithm,
}

/// The eight bytes that propose one algorithm: the payload type, two
/// reserved bytes, the length 8, the algorithm and three reserved bytes.
pub open spec fn algorithm_payload(kind: u8, algorithm: u8) -> Seq<u8> {
    seq![kind, 0u8, 0u8, 8u8, algorithm, 0u8, 0u8, 0u8]
}

impl RMCPPlusOpenSessionRequest {
    pub fn new(
        message_tag: u8,
        max_privilege: Privilege,
        remote_console_session_id: u32,
        authentication_algorithm: AuthAlgorithm,
        integrity_algorithm: IntegrityAlgorithm,
        confidentiality_algorithm: ConfidentialityAlgorithm,
    ) -> (request: RMCPPlusOpenSessionRequest)
        ensures
            request == (RMCPPlusOpenSessionRequest {
                message_tag,
                max_privilege,
                remote_console_session_id,
                authentication_algorithm,
                integrity_algorithm,
                confidentiality_algorithm,
            }),
    {
        RMCPPlusOpenSessionRequest {
            message_tag,
            max_privilege,
            remote_console_session_id,
            authentication_algorithm,
            integrity_algorithm,
            confidentiality_algorithm,
        }
    }

    /// The thirty-two bytes of this request.
    pub open spec fn spec_bytes(&self) -> Seq<u8> {
        seq![self.message_tag, self.max_privilege.spec_to_byte(), 0u8, 0u8] + u32_le(
            self.remote_console_session_id,
        ) + algorithm_payload(0, self.authentication_algorithm.spec_to_byte()) + algorithm_payload(
            1,
            self.integrity_algorithm.spec_to_byte(),
        ) + algorithm_payload(2, self.confidentiality_algorithm.spec_to_byte())
    }

    /// A request has thirty-two bytes.
    pub proof fn lemma_bytes_len(&self)
        ensures
            self.spec_bytes().len() == 32,
    {
        lemma_le_bytes_len(self.remote_console_session_id as nat, 4);
    }

    /// Whether reading the bytes of this request gives it back.
    pub open spec fn canonical(&self) -> bool {
        &&& self.authentication_algorithm.canonical()
        &&& self.integrity_algorithm.canonical()
        &&& self.confidentiality_algorithm.canonical()
    }

    /// The request that `bytes` hold, or why they hold none.
    pub open spec fn spec_parse(bytes: Seq<u8>) -> Result<RMCPPlusOpenSessionRequest, Error> {
        if bytes.len() != 32 {
            Err(Error::Packet(EPacket::IpmiPayload(EIpmiPayload::WrongLength)))
        } else {
            match Privilege::spec_try_from(bytes[1]) {
                Err(e) => Err(Error::Packet(EPacket::IpmiPayload(e))),
                Ok(max_privilege) => match AuthAlgorithm::spec_try_from(bytes[12]) {
                    Err(e) => Err(Error::Packet(EPacket::IpmiPayload(e))),
                    Ok(authentication_algorithm) => match IntegrityAlgorithm::spec_try_from(
                        bytes[20],
                    ) {
                        Err(e) => Err(Error::Packet(EPacket::IpmiPayload(e))),
                        Ok(integrity_algorithm) => match ConfidentialityAlgorithm::spec_try_from(
                            bytes[28],
                        ) {
                            Err(e) => Err(Error::Packet(EPacket::IpmiPayload(e))),
                            Ok(confidentiality_algorithm) => Ok(
                                RMCPPlusOpenSessionRequest {
                                    message_tag: bytes[0],
                                    max_privilege,
                                    remote_console_session_id: le_value(
                                        bytes.subrange(4, 8),
                                    ) as u32,
                                    authentication_algorithm,
                                    integrity_algorithm,
                                    confidentiality_algorithm,
                                },
                            ),
                        },
                    },
                },
            }
        }
    }

    /// Serialises this request.
    pub fn to_vec(&self) -> (bytes: Vec<u8>)
        ensures
            bytes@ == self.spec_bytes(),
            bytes@.len() == 32,
    {
        let mut out: Vec<u8> = Vec::new();
        out.push(self.message_tag);
        out.push(self.max_privilege.to_byte());
        out.push(0);
        out.push(0);
        append_u32_to_vec(&mut out, self.remote_console_session_id);
        push_algorithm_payload(&mut out, 0, self.authentication_algorithm.to_byte());
        push_algorithm_payload(&mut out, 1, self.integrity_algorithm.to_byte());
        push_algorithm_payload(&mut out, 2, self.confidentiality_algorithm.to_byte());
        proof {
            lemma_le_bytes_len(self.remote_console_session_id as nat, 4);
            assert(out@ =~= self.spec_bytes());
        }
        out
    }

    /// Parses an open-session request of exactly thirty-two bytes.
    pub fn try_from(value: &[u8]) -> (request: Result<RMCPPlusOpenSessionRequest, Error>)
        ensures
            request == RMCPPlusOpenSessionRequest::spec_parse(value@),
    {
        if value.len() != 32 {
            return Err(Error::Packet(EPacket::IpmiPayload(EIpmiPayload::WrongLength)));
        }
        let max_privilege = match Privilege::try_from(value[1]) {
            Err(e) => {
                return Err(Error::Packet(EPacket::IpmiPayload(e)));
            },
            Ok(p) => p,
        };
        let authentication_algorithm = match AuthAlgorithm::try_from(value[12]) {
            Err(e) => {
                return Err(Error::Packet(EPacket::IpmiPayload(e)));
            },
            Ok(a) => a,
        };
        let integrity_algorithm = match IntegrityAlgorithm::try_from(value[20]) {
            Err(e) => {
                return Err(Error::Packet(EPacket::IpmiPayload(e)));
            },
            Ok(a) => a,
        };
        let confidentiality_algorithm = match ConfidentialityAlgorithm::try_from(value[28]) {
            Err(e) => {
                return Err(Error::Packet(EPacket::IpmiPayload(e)));
            },
            Ok(a) => a,
        };
        Ok(
            RMCPPlusOpenSessionRequest {
                message_tag: value[0],
                max_privilege,
                remote_console_session_id: read_u32_le(value, 4),
                authentication_algorithm,
                integrity_algorithm,
                confidentiality_algorithm,
            },
        )
    }

    /// The unauthenticated packet that carries this request.
    pub fn to_packet(&self) -> (packet: Packet)
        ensures
            packet.rmcp_header == RmcpHeader::spec_default(),
            packet.ipmi_header == IpmiHeader::V2_0(
                IpmiV2Header::spec_new(
                    AuthType::RmcpPlus,
                    false,
                    false,
                    PayloadType::RmcpOpenSessionRequest,
                    0,
                    0,
                    32,
                ),
            ),
            packet.payload == Payload::Rmcp(RMCPPlusOpenSession::Request(*self)),
    {
        Packet::new(
            RmcpHeader::default(),
            IpmiHeader::V2_0(IpmiV2Header::new_pre(PayloadType::RmcpOpenSessionRequest, 32)),
            Payload::Rmcp(RMCPPlusOpenSession::Request(*self)),
        )
    }
}

fn push_algorithm_payload(out: &mut Vec<u8>, kind: u8, algorithm: u8)
    ensures
        final(out)@ == old(out)@ + algorithm_payload(kind, algorithm),
{
    out.push(kind);
    out.push(0);
    out.push(0);
    out.push(8);
    out.push(algorithm);
    out.push(0);
    out.push(0);
    out.push(0);
    assert(out@ =~= old(out)@ + algorithm_payload(kind, algorithm));
}

/// Reading the bytes of a canonical open-session request gives it back.
pub proof fn lemma_open_session_request_round_trip(request: RMCPPlusOpenSessionRequest)
    requires
        request.canonical(),
    ensures
        RMCPPlusOpenSessionRequest::spec_parse(request.spec_bytes()) == Ok::<
            RMCPPlusOpenSessionRequest,
            Error,
        >(request),
{
    let b = request.spec_bytes();
    lemma_pow256_values();
    lemma_le_bytes_len(request.remote_console_session_id as nat, 4);
    lemma_le_value_of_bytes(request.remote_console_session_id as nat, 4);
    assert(b.len() == 32);
    assert(b.subrange(4, 8) =~= u32_le(request.remote_console_session_id));
    assert(b[0] == request.message_tag);
    assert(b[1] == request.max_privilege.spec_to_byte());
    assert(b[12] == request.authentication_algorithm.spec_to_byte());
    assert(b[20] == request.integrity_algorithm.spec_to_byte());
    assert(b[28] == request.confidentiality_algorithm.spec_to_byte());
    crate::rmcp::ipmi::commands::app::channel::lemma_privilege_round_trip(request.max_privilege);
}

/// The BMC's answer to an open-session request.
///
/// Where the status is not "no errors" the BMC returns the status and the
/// console's session identifier only; the other fields are then read as
/// zero.
#[derive(Clone, Copy, Debug, PartialEq, Eq, Structural)]
pub struct RMCPPlusOpenSessionResponse {
    pub message_tag: u8,
    pub rmcp_plus_status_code: StatusCode,
    pub max_privilege: Privilege,
    pub remote_console_session_id: u32,
    /// The identifier the BMC chose for the session.
    pub managed_system_session_id: u32,
    pub authentication_algorithm: AuthAlgorithm,
    pub integrity_algorithm: IntegrityAlgorithm,
    pub confidentiality_algorithm: ConfidentialityAlgorithm,
}

impl RMCPPlusOpenSessionResponse {
    /// A response that refuses the session with `status`.
    pub open spec fn refusal(message_tag: u8, status: StatusCode, console_id: u32)
        -> RMCPPlusOpenSessionResponse {
        RMCPPlusOpenSessionResponse {
            message_tag,
            rmcp_plus_status_code: status,
            max_privilege: Privilege::Reserved,
            remote_console_session_id: console_id,
            managed_system_session_id: 0,
            authentication_algorithm: AuthAlgorithm::RakpNone,
            integrity_algorithm: IntegrityAlgorithm::NoIntegrity,
            confidentiality_algorithm: ConfidentialityAlgorithm::NoConfidentiality,
        }
    }

    /// The response that `bytes` hold, or why they hold none.
    pub open spec fn spec_parse(bytes: Seq<u8>) -> Result<RMCPPlusOpenSessionResponse, Error> {
        if bytes.len() < 2 {
            Err(Error::Packet(EPacket::IpmiPayload(EIpmiPayload::WrongLength)))
        } else if StatusCode::spec_from(bytes[1]) != StatusCode::NoErrors {
            Ok(
                RMCPPlusOpenSessionResponse::refusal(
                    bytes[0],
                    StatusCode::spec_from(bytes[1]),
                    if bytes.len() >= 8 {
                        le_value(bytes.subrange(4, 8)) as u32
                    } else {
                        0
                    },
                ),
            )
        } else if bytes.len() < 33 {
            Err(Error::Packet(EPacket::IpmiPayload(EIpmiPayload::WrongLength)))
        } else {
            match Privilege::spec_try_from(bytes[2]) {
                Err(e) => Err(Error::Packet(EPacket::IpmiPayload(e))),
                Ok(max_privilege) => match AuthAlgorithm::spec_try_from(bytes[16]) {
                    Err(e) => Err(Error::Packet(EPacket::IpmiPayload(e))),
                    Ok(authentication_algorithm) => match IntegrityAlgorithm::spec_try_from(
                        bytes[24],
                    ) {
                        Err(e) => Err(Error::Packet(EPacket::IpmiPayload(e))),
                        Ok(integrity_algorithm) => match ConfidentialityAlgorithm::spec_try_from(
                            bytes[32],
                        ) {
                            Err(e) => Err(Error::Packet(EPacket::IpmiPayload(e))),
                            Ok(confidentiality_algorithm) => Ok(
                                RMCPPlusOpenSessionResponse {
                                    message_tag: bytes[0],
                                    rmcp_plus_status_code: StatusCode::NoErrors,
                                    max_privilege,
                                    remote_console_session_id: le_value(
                                        bytes.subrange(4, 8),
                                    ) as u32,
                                    managed_system_session_id: le_value(
                                        bytes.subrange(8, 12),
                                    ) as u32,
                                    authentication_algorithm,
                                    integrity_algorithm,
                                    confidentiality_algorithm,
                                },
                            ),
                        },
                    },
                },
            }
        }
    }

    /// Parses an open-session response.
    pub fn try_from(value: &[u8]) -> (response: Result<RMCPPlusOpenSessionResponse, Error>)
        ensures
            response == RMCPPlusOpenSessionResponse::spec_parse(value@),
    {
        if value.len() < 2 {
            return Err(Error::Packet(EPacket::IpmiPayload(EIpmiPayload::WrongLength)));
        }
        let status = StatusCode::from(value[1]);
        match status {
            StatusCode::NoErrors => {},
            _ => {
                let console_id = if value.len() >= 8 {
                    read_u32_le(value, 4)
                } else {
                    0
                };
                return Ok(
                    RMCPPlusOpenSessionResponse {
                        message_tag: value[0],
                        rmcp_plus_status_code: status,
                        max_privilege: Privilege::Reserved,
                        remote_console_session_id: console_id,
                        managed_system_session_id: 0,
                        authentication_algorithm: AuthAlgorithm::RakpNone,
                        integrity_algorithm: IntegrityAlgorithm::NoIntegrity,
                        confidentiality_algorithm: ConfidentialityAlgorithm::NoConfidentiality,
                    },
                );
            },
        }
        if value.len() < 33 {
            return Err(Error::Packet(EPacket::IpmiPayload(EIpmiPayload::WrongLength)));
        }
        let max_privilege = match Privilege::try_from(value[2]) {
            Err(e) => {
                return Err(Error::Packet(EPacket::IpmiPayload(e)));
            },
            Ok(p) => p,
        };
        let authentication_algorithm = match AuthAlgorithm::try_from(value[16]) {
            Err(e) => {
                return Err(Error::Packet(EPacket::IpmiPayload(e)));
            },
            Ok(a) => a,
        };
        let integrity_algorithm = match IntegrityAlgorithm::try_from(value[24]) {
            Err(e) => {
                return Err(Error::Packet(EPacket::IpmiPayload(e)));
            },
            Ok(a) => a,
        };
        let confidentiality_algorithm = match ConfidentialityAlgorithm::try_from(value[32]) {
            Err(e) => {
                return Err(Error::Packet(EPacket::IpmiPayload(e)));
            },
            Ok(a) => a,
        };
        Ok(
            RMCPPlusOpenSessionResponse {
                message_tag: value[0],
                rmcp_plus_status_code: status,
                max_privilege,
                remote_console_session_id: read_u32_le(value, 4),
                managed_system_session_id: read_u32_le(value, 8),
                authentication_algorithm,
                integrity_algorithm,
                confidentiality_algorithm,
            },
        )
    }
}

} // verus!
