//! The session header that follows the RMCP header: IPMI v1.5 or v2.0.

pub mod v1;
pub mod v2;

use crate::err::{EIpmiHeader, EPacket, Error};
use crate::rmcp::ipmi::header::v1::IpmiV1Header;
use crate::rmcp::ipmi::header::v2::{IpmiV2Header, PayloadType};
use vstd::prelude::*;

verus! {

/// The authentication type in the first byte of a session header. Type
/// `RmcpPlus` marks an IPMI v2.0 header.
#[derive(Clone, Copy, Debug, PartialEq, Eq, Structural)]
pub enum AuthType {
    /// No authentication (type 0).
    NoAuth,
    MD2,
    MD5,
    PasswordOrKey,
    Oem,
    RmcpPlus,
}

impl AuthType {
    /// The authentication type that the byte `value` names, if it names one.
    pub open spec fn spec_try_from(value: u8) -> Result<AuthType, EIpmiHeader> {
        if value == 0x00 {
            Ok(AuthType::NoAuth)
        } else if value == 0x01 {
            Ok(AuthType::MD2)
        } else if value == 0x02 {
            Ok(AuthType::MD5)
        } else if value == 0x04 {
            Ok(AuthType::PasswordOrKey)
        } else if value == 0x05 {
            Ok(AuthType::Oem)
        } else if value == 0x06 {
            Ok(AuthType::RmcpPlus)
        } else {
            Err(EIpmiHeader::UnsupportedAuthType(value))
        }
    }

    /// The authentication type that the byte `value` names, if it names one.
    pub fn try_from(value: u8) -> (converted: Result<AuthType, EIpmiHeader>)
        ensures
            converted == AuthType::spec_try_from(value),
    {
        if value == 0x00 {
            Ok(AuthType::NoAuth)
        } else if value == 0x01 {
            Ok(AuthType::MD2)
        } else if value == 0x02 {
            Ok(AuthType::MD5)
        } else if value == 0x04 {
            Ok(AuthType::PasswordOrKey)
        } else if value == 0x05 {
            Ok(AuthType::Oem)
        } else if value == 0x06 {
            Ok(AuthType::RmcpPlus)
        } else {
            Err(EIpmiHeader::UnsupportedAuthType(value))
        }
    }

    /// The byte that names this authentication type.
    pub open spec fn spec_to_byte(&self) -> u8 {
        match *self {
            AuthType::NoAuth => 0x00,
            AuthType::MD2 => 0x01,
            AuthType::MD5 => 0x02,
            AuthType::PasswordOrKey => 0x04,
            AuthType::Oem => 0x05,
            AuthType::RmcpPlus => 0x06,
        }
    }

    /// The byte that names this authentication type.
    pub fn to_byte(&self) -> (byte: u8)
        ensures
            byte == self.spec_to_byte(),
    {
        match *self {
            AuthType::NoAuth => 0x00,
            AuthType::MD2 => 0x01,
            AuthType::MD5 => 0x02,
            AuthType::PasswordOrKey => 0x04,
            AuthType::Oem => 0x05,
            AuthType::RmcpPlus => 0x06,
        }
    }
}

/// A session header of either protocol version.
#[derive(Clone, Copy, Debug, PartialEq, Eq, Structural)]
pub enum IpmiHeader {
    V1_5(IpmiV1Header),
    V2_0(IpmiV2Header),
}

impl IpmiHeader {
    /// The header that `bytes` hold, or why they hold none.
    pub open spec fn spec_parse(bytes: Seq<u8>) -> Result<IpmiHeader, Error> {
        if bytes.len() == 0 {
            Err(Error::Packet(EPacket::WrongLength))
        } else {
            match AuthType::spec_try_from(bytes[0]) {
                Err(e) => Err(Error::Packet(EPacket::IpmiHeader(e))),
                Ok(AuthType::RmcpPlus) => match IpmiV2Header::spec_parse(bytes) {
                    Ok(h) => Ok(IpmiHeader::V2_0(h)),
                    Err(e) => Err(Error::Packet(EPacket::IpmiHeader(e))),
                },
                Ok(_) => match IpmiV1Header::spec_parse(bytes) {
                    Ok(h) => Ok(IpmiHeader::V1_5(h)),
                    Err(e) => Err(Error::Packet(EPacket::IpmiHeader(e))),
                },
            }
        }
    }

    /// Parses a session header of either version.
    pub fn try_from(value: &[u8]) -> (header: Result<IpmiHeader, Error>)
        ensures
            header == IpmiHeader::spec_parse(value@),
    {
        if value.len() == 0 {
            return Err(Error::Packet(EPacket::WrongLength));
        }
        match AuthType::try_from(value[0]) {
            Err(e) => Err(Error::Packet(EPacket::IpmiHeader(e))),
            Ok(AuthType::RmcpPlus) => match IpmiV2Header::try_from(value) {
                Ok(h) => Ok(IpmiHeader::V2_0(h)),
                Err(e) => Err(Error::Packet(EPacket::IpmiHeader(e))),
            },
            Ok(_) => match IpmiV1Header::try_from(value) {
                Ok(h) => Ok(IpmiHeader::V1_5(h)),
                Err(e) => Err(Error::Packet(EPacket::IpmiHeader(e))),
            },
        }
    }

    /// The bytes of this header.
    pub open spec fn spec_bytes(&self) -> Seq<u8> {
        match *self {
            IpmiHeader::V1_5(h) => h.spec_bytes(),
            IpmiHeader::V2_0(h) => h.spec_bytes(),
        }
    }

    /// Whether this header can be serialised.
    pub open spec fn wf(&self) -> bool {
        match *self {
            IpmiHeader::V1_5(h) => h.wf(),
            IpmiHeader::V2_0(h) => h.wf(),
        }
    }

    /// Serialises this header.
    pub fn to_vec(&self) -> (bytes: Vec<u8>)
        requires
            self.wf(),
        ensures
            bytes@ == self.spec_bytes(),
    {
        match self {
            IpmiHeader::V1_5(h) => h.to_vec(),
            IpmiHeader::V2_0(h) => h.to_vec(),
        }
    }

    pub open spec fn spec_payload_type(&self) -> PayloadType {
        match *self {
            IpmiHeader::V1_5(_) => PayloadType::Ipmi,
            IpmiHeader::V2_0(h) => h.payload_type,
        }
    }

    /// The type of the payload that follows: always IPMI after a v1.5 header.
    pub fn payload_type(&self) -> (payload_type: PayloadType)
        ensures
            payload_type == self.spec_payload_type(),
    {
        match self {
            IpmiHeader::V1_5(_) => PayloadType::Ipmi,
            IpmiHeader::V2_0(h) => h.payload_type,
        }
    }

    /// The length of the session header that starts with the two given bytes.
    pub open spec fn spec_header_len(first_byte: u8, second_byte: u8) -> Result<
        usize,
        EIpmiHeader,
    > {
        match AuthType::spec_try_from(first_byte) {
            Err(e) => Err(e),
            Ok(AuthType::RmcpPlus) => match PayloadType::spec_try_from(second_byte) {
                Err(e) => Err(EIpmiHeader::V2(e)),
                Ok(PayloadType::Oem) => Ok(18usize),
                Ok(_) => Ok(12usize),
            },
            Ok(AuthType::NoAuth) => Ok(10usize),
            Ok(_) => Ok(26usize),
        }
    }

    /// The length of a session header, from its first two bytes: 12 for
    /// v2.0, 18 where its payload is OEM; 10 for v1.5 without authentication
    /// code, 26 with one.
    pub fn header_len(first_byte: u8, second_byte: u8) -> (len: Result<usize, EIpmiHeader>)
        ensures
            len == IpmiHeader::spec_header_len(first_byte, second_byte),
    {
        match AuthType::try_from(first_byte) {
            Err(e) => Err(e),
            Ok(AuthType::RmcpPlus) => match PayloadType::try_from(second_byte) {
                Err(e) => Err(EIpmiHeader::V2(e)),
                Ok(PayloadType::Oem) => Ok(18),
                Ok(_) => Ok(12),
            },
            Ok(AuthType::NoAuth) => Ok(10),
            Ok(_) => Ok(26),
        }
    }

    /// Sets the payload length, keeping its low 8 bits in a v1.5 header and
    /// its low 16 bits in a v2.0 header.
    pub fn set_payload_len(&mut self, len: usize)
        ensures
            match (*old(self), *final(self)) {
                (IpmiHeader::V1_5(before), IpmiHeader::V1_5(after)) => after == (IpmiV1Header {
                    payload_length: (len % 256) as u8,
                    ..before
                }),
                (IpmiHeader::V2_0(before), IpmiHeader::V2_0(after)) => after == (IpmiV2Header {
                    payload_length: (len % 65536) as u16,
                    ..before
                }),
                _ => false,
            },
    {
        match self {
            IpmiHeader::V1_5(h) => {
                h.payload_length = (len % 256) as u8;
            },
            IpmiHeader::V2_0(h) => {
                h.payload_length = (len % 65536) as u16;
            },
        }
    }

    pub open spec fn spec_payload_len(&self) -> usize {
        match *self {
            IpmiHeader::V1_5(h) => h.payload_length as usize,
            IpmiHeader::V2_0(h) => h.payload_length as usize,
        }
    }

    /// The length of the payload that follows.
    pub fn payload_len(&self) -> (len: usize)
        ensures
            len == self.spec_payload_len(),
    {
        match self {
            IpmiHeader::V1_5(h) => h.payload_length as usize,
            IpmiHeader::V2_0(h) => h.payload_length as usize,
        }
    }

    pub open spec fn spec_seq_num(&self) -> u32 {
        match *self {
            IpmiHeader::V1_5(h) => h.session_seq_number,
            IpmiHeader::V2_0(h) => h.session_seq_number,
        }
    }

    /// The session sequence number.
    pub fn seq_num(&self) -> (seq: u32)
        ensures
            seq == self.spec_seq_num(),
    {
        match self {
            IpmiHeader::V1_5(h) => h.session_seq_number,
            IpmiHeader::V2_0(h) => h.session_seq_number,
        }
    }
}

} // verus!
