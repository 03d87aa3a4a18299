//! The IPMI v2.0 (RMCP+) session header.

use crate::err::{EIpmiHeader, EV2Header};
use crate::helpers::{
    append_u16_to_vec, append_u32_to_vec, le_value, lemma_le_bytes_len, lemma_le_value_of_bytes,
    lemma_pow256_values, read_u16_le, read_u32_le, u16_le, u32_le,
};
use crate::rmcp::ipmi::header::AuthType;
use vstd::prelude::*;

verus! {

/// The type of payload an IPMI v2.0 packet carries: the low six bits of the
/// second header byte.
#[derive(Clone, Copy, Debug, PartialEq, Eq, Structural)]
pub enum PayloadType {
    Ipmi,
    Sol,
    Oem,
    RmcpOpenSessionRequest,
    RmcpOpenSessionResponse,
    RAKP1,
    RAKP2,
    RAKP3,
    RAKP4,
}

impl PayloadType {
    /// The payload type that the byte `value` names, if it names one.
    pub open spec fn spec_try_from(value: u8) -> Result<PayloadType, EV2Header> {
        if value % 64 == 0x00 {
            Ok(PayloadType::Ipmi)
        } else if value % 64 == 0x01 {
            Ok(PayloadType::Sol)
        } else if value % 64 == 0x02 {
            Ok(PayloadType::Oem)
        } else if value % 64 == 0x10 {
            Ok(PayloadType::RmcpOpenSessionRequest)
        } else if value % 64 == 0x11 {
            Ok(PayloadType::RmcpOpenSessionResponse)
        } else if value % 64 == 0x12 {
            Ok(PayloadType::RAKP1)
        } else if value % 64 == 0x13 {
            Ok(PayloadType::RAKP2)
        } else if value % 64 == 0x14 {
            Ok(PayloadType::RAKP3)
        } else if value % 64 == 0x15 {
            Ok(PayloadType::RAKP4)
        } else {
            Err(EV2Header::UnsupportedPayloadType(value))
        }
    }

    /// The payload type that the byte `value` names, if it names one.
    pub fn try_from(value: u8) -> (converted: Result<PayloadType, EV2Header>)
        ensures
            converted == PayloadType::spec_try_from(value),
    {
        if value % 64 == 0x00 {
            Ok(PayloadType::Ipmi)
        } else if value % 64 == 0x01 {
            Ok(PayloadType::Sol)
        } else if value % 64 == 0x02 {
            Ok(PayloadType::Oem)
        } else if value % 64 == 0x10 {
            Ok(PayloadType::RmcpOpenSessionRequest)
        } else if value % 64 == 0x11 {
            Ok(PayloadType::RmcpOpenSessionResponse)
        } else if value % 64 == 0x12 {
            Ok(PayloadType::RAKP1)
        } else if value % 64 == 0x13 {
            Ok(PayloadType::RAKP2)
        } else if value % 64 == 0x14 {
            Ok(PayloadType::RAKP3)
        } else if value % 64 == 0x15 {
            Ok(PayloadType::RAKP4)
        } else {
            Err(EV2Header::UnsupportedPayloadType(value))
        }
    }

    /// The byte that names this payload type.
    pub open spec fn spec_to_byte(&self) -> u8 {
        match *self {
            PayloadType::Ipmi => 0x00,
            PayloadType::Sol => 0x01,
            PayloadType::Oem => 0x02,
            PayloadType::RmcpOpenSessionRequest => 0x10,
            PayloadType::RmcpOpenSessionResponse => 0x11,
            PayloadType::RAKP1 => 0x12,
            PayloadType::RAKP2 => 0x13,
            PayloadType::RAKP3 => 0x14,
            PayloadType::RAKP4 => 0x15,
        }
    }

    /// The byte that names this payload type.
    pub fn to_byte(&self) -> (byte: u8)
        ensures
            byte == self.spec_to_byte(),
    {
        match *self {
            PayloadType::Ipmi => 0x00,
            PayloadType::Sol => 0x01,
            PayloadType::Oem => 0x02,
            PayloadType::RmcpOpenSessionRequest => 0x10,
            PayloadType::RmcpOpenSessionResponse => 0x11,
            PayloadType::RAKP1 => 0x12,
            PayloadType::RAKP2 => 0x13,
            PayloadType::RAKP3 => 0x14,
            PayloadType::RAKP4 => 0x15,
        }
    }
}

/// The IPMI v2.0 session header: twelve bytes, or eighteen where the payload
/// type is OEM.
#[derive(Clone, Copy, Debug, PartialEq, Eq, Structural)]
pub struct IpmiV2Header {
    pub auth_type: AuthType,
    /// Whether the payload is encrypted: the top bit of the second byte.
    pub payload_enc: bool,
    /// Whether an integrity trailer follows the payload: the next bit.
    pub payload_auth: bool,
    pub payload_type: PayloadType,
    pub oem_iana: Option<u32>,
    pub oem_payload_id: Option<u16>,
    pub rmcp_plus_session_id: u32,
    pub session_seq_number: u32,
    pub payload_length: u16,
}

impl IpmiV2Header {
    /// The header that `bytes` hold, or why they hold none.
    pub open spec fn spec_parse(bytes: Seq<u8>) -> Result<IpmiV2Header, EIpmiHeader> {
        if bytes.len() != 12 && bytes.len() != 18 {
            Err(EIpmiHeader::V2(EV2Header::WrongLength))
        } else {
            match AuthType::spec_try_from(bytes[0]) {
                Err(e) => Err(e),
                Ok(auth_type) => match PayloadType::spec_try_from((bytes[1] % 64) as u8) {
                    Err(e) => Err(EIpmiHeader::V2(e)),
                    Ok(PayloadType::Oem) => if bytes.len() != 18 {
                        Err(EIpmiHeader::V2(EV2Header::WrongLength))
                    } else {
                        Ok(
                            IpmiV2Header {
                                auth_type,
                                payload_enc: bytes[1] >= 128,
                                payload_auth: bytes[1] % 128 >= 64,
                                payload_type: PayloadType::Oem,
                                oem_iana: Some(le_value(bytes.subrange(2, 6)) as u32),
                                oem_payload_id: Some(le_value(bytes.subrange(6, 8)) as u16),
                                rmcp_plus_session_id: le_value(bytes.subrange(8, 12)) as u32,
                                session_seq_number: le_value(bytes.subrange(12, 16)) as u32,
                                payload_length: le_value(bytes.subrange(16, 18)) as u16,
                            },
                        )
                    },
                    Ok(payload_type) => if bytes.len() != 12 {
                        Err(EIpmiHeader::V2(EV2Header::WrongLength))
                    } else {
                        Ok(
                            IpmiV2Header {
                                auth_type,
                                payload_enc: bytes[1] >= 128,
                                payload_auth: bytes[1] % 128 >= 64,
                                payload_type,
                                oem_iana: None,
                                oem_payload_id: None,
                                rmcp_plus_session_id: le_value(bytes.subrange(2, 6)) as u32,
                                session_seq_number: le_value(bytes.subrange(6, 10)) as u32,
                                payload_length: le_value(bytes.subrange(10, 12)) as u16,
                            },
                        )
                    },
                },
            }
        }
    }

    /// Parses an IPMI v2.0 session header.
    pub fn try_from(value: &[u8]) -> (header: Result<IpmiV2Header, EIpmiHeader>)
        ensures
            header == IpmiV2Header::spec_parse(value@),
    {
        if value.len() != 12 && value.len() != 18 {
            return Err(EIpmiHeader::V2(EV2Header::WrongLength));
        }
        let auth_type = match AuthType::try_from(value[0]) {
            Err(e) => {
                return Err(e);
            },
            Ok(auth_type) => auth_type,
        };
        let flags = value[1];
        let payload_enc = flags >= 128;
        let payload_auth = flags % 128 >= 64;
        let payload_type = match PayloadType::try_from(flags % 64) {
            Err(e) => {
                return Err(EIpmiHeader::V2(e));
            },
            Ok(payload_type) => payload_type,
        };
        match payload_type {
            PayloadType::Oem => {
                if value.len() != 18 {
                    return Err(EIpmiHeader::V2(EV2Header::WrongLength));
                }
                Ok(
                    IpmiV2Header {
                        auth_type,
                        payload_enc,
                        payload_auth,
                        payload_type,
                        oem_iana: Some(read_u32_le(value, 2)),
                        oem_payload_id: Some(read_u16_le(value, 6)),
                        rmcp_plus_session_id: read_u32_le(value, 8),
                        session_seq_number: read_u32_le(value, 12),
                        payload_length: read_u16_le(value, 16),
                    },
                )
            },
            _ => {
                if value.len() != 12 {
                    return Err(EIpmiHeader::V2(EV2Header::WrongLength));
                }
                Ok(
                    IpmiV2Header {
                        auth_type,
                        payload_enc,
                        payload_auth,
                        payload_type,
                        oem_iana: None,
                        oem_payload_id: None,
                        rmcp_plus_session_id: read_u32_le(value, 2),
                        session_seq_number: read_u32_le(value, 6),
                        payload_length: read_u16_le(value, 10),
                    },
                )
            },
        }
    }

    /// The second header byte: the encryption flag, the authentication flag
    /// and the payload type.
    pub open spec fn spec_flags_byte(&self) -> u8 {
        ((if self.payload_enc {
            128int
        } else {
            0int
        }) + (if self.payload_auth {
            64int
        } else {
            0int
        }) + self.payload_type.spec_to_byte()) as u8
    }

    /// Whether this header can be serialised: an OEM header names its OEM, and
    /// only an OEM header does.
    pub open spec fn wf(&self) -> bool {
        if self.payload_type == PayloadType::Oem {
            self.oem_iana is Some && self.oem_payload_id is Some
        } else {
            self.oem_iana is None && self.oem_payload_id is None
        }
    }

    /// The bytes of this header.
    pub open spec fn spec_bytes(&self) -> Seq<u8> {
        let start = seq![self.auth_type.spec_to_byte(), self.spec_flags_byte()];
        let oem = if self.payload_type == PayloadType::Oem {
            u32_le(self.oem_iana.unwrap()) + u16_le(self.oem_payload_id.unwrap())
        } else {
            Seq::<u8>::empty()
        };
        start + oem + u32_le(self.rmcp_plus_session_id) + u32_le(self.session_seq_number) + u16_le(
            self.payload_length,
        )
    }

    /// The length of this header: 18 for an OEM payload, else 12.
    pub open spec fn spec_len(&self) -> nat {
        if self.payload_type == PayloadType::Oem {
            18
        } else {
            12
        }
    }

    /// Serialises this header.
    pub fn to_vec(&self) -> (bytes: Vec<u8>)
        requires
            self.wf(),
        ensures
            bytes@ == self.spec_bytes(),
            bytes@.len() == self.spec_len(),
    {
        let enc: u8 = if self.payload_enc {
            128
        } else {
            0
        };
        let auth: u8 = if self.payload_auth {
            64
        } else {
            0
        };
        let mut out: Vec<u8> = Vec::new();
        out.push(self.auth_type.to_byte());
        out.push(enc + auth + self.payload_type.to_byte());
        assert(out@ =~= seq![self.auth_type.spec_to_byte(), self.spec_flags_byte()]);
        match self.payload_type {
            PayloadType::Oem => {
                append_u32_to_vec(&mut out, self.oem_iana.unwrap());
                append_u16_to_vec(&mut out, self.oem_payload_id.unwrap());
            },
            _ => {},
        }
        append_u32_to_vec(&mut out, self.rmcp_plus_session_id);
        append_u32_to_vec(&mut out, self.session_seq_number);
        append_u16_to_vec(&mut out, self.payload_length);
        proof {
            self.lemma_bytes_len();
            assert(out@ =~= self.spec_bytes());
        }
        out
    }

    pub proof fn lemma_bytes_len(&self)
        ensures
            self.spec_bytes().len() == self.spec_len(),
    {
        if self.payload_type == PayloadType::Oem {
            lemma_le_bytes_len(self.oem_iana.unwrap() as nat, 4);
            lemma_le_bytes_len(self.oem_payload_id.unwrap() as nat, 2);
        }
        lemma_le_bytes_len(self.rmcp_plus_session_id as nat, 4);
        lemma_le_bytes_len(self.session_seq_number as nat, 4);
        lemma_le_bytes_len(self.payload_length as nat, 2);
    }

    pub open spec fn spec_new(
        auth_type: AuthType,
        payload_enc: bool,
        payload_auth: bool,
        payload_type: PayloadType,
        rmcp_plus_session_id: u32,
        session_seq_number: u32,
        payload_length: u16,
    ) -> IpmiV2Header {
        IpmiV2Header {
            auth_type,
            payload_enc,
            payload_auth,
            payload_type,
            oem_iana: None,
            oem_payload_id: None,
            rmcp_plus_session_id,
            session_seq_number,
            payload_length,
        }
    }

    /// A header without OEM fields.
    pub fn new(
        auth_type: AuthType,
        payload_enc: bool,
        payload_auth: bool,
        payload_type: PayloadType,
        rmcp_plus_session_id: u32,
        session_seq_number: u32,
        payload_length: u16,
    ) -> (header: IpmiV2Header)
        ensures
            header == IpmiV2Header::spec_new(
                auth_type,
                payload_enc,
                payload_auth,
                payload_type,
                rmcp_plus_session_id,
                session_seq_number,
                payload_length,
            ),
    {
        IpmiV2Header {
            auth_type,
            payload_enc,
            payload_auth,
            payload_type,
            oem_iana: None,
            oem_payload_id: None,
            rmcp_plus_session_id,
            session_seq_number,
            payload_length,
        }
    }

    /// The header of a packet inside an established session: an encrypted,
    /// authenticated IPMI payload. Session identifier and sequence number are
    /// filled in when the packet is sent.
    pub fn new_est(payload_length: u16) -> (header: IpmiV2Header)
        ensures
            header == IpmiV2Header::spec_new(
                AuthType::RmcpPlus,
                true,
                true,
                PayloadType::Ipmi,
                0,
                0,
                payload_length,
            ),
    {
        IpmiV2Header::new(AuthType::RmcpPlus, true, true, PayloadType::Ipmi, 0, 0, payload_length)
    }

    /// The header of a packet sent before a session is established: neither
    /// encrypted nor authenticated, outside any session.
    pub fn new_pre(payload_type: PayloadType, payload_length: u16) -> (header: IpmiV2Header)
        ensures
            header == IpmiV2Header::spec_new(
                AuthType::RmcpPlus,
                false,
                false,
                payload_type,
                0,
                0,
                payload_length,
            ),
    {
        IpmiV2Header::new(AuthType::RmcpPlus, false, false, payload_type, 0, 0, payload_length)
    }
}

/// A v2.0 session header survives being written and read back.
pub proof fn lemma_v2_header_round_trip(header: IpmiV2Header)
    requires
        header.wf(),
    ensures
        IpmiV2Header::spec_parse(header.spec_bytes()) == Ok::<IpmiV2Header, EIpmiHeader>(header),
{
    let b = header.spec_bytes();
    header.lemma_bytes_len();
    lemma_pow256_values();
    lemma_le_bytes_len(header.rmcp_plus_session_id as nat, 4);
    lemma_le_bytes_len(header.session_seq_number as nat, 4);
    lemma_le_bytes_len(header.payload_length as nat, 2);
    lemma_le_value_of_bytes(header.rmcp_plus_session_id as nat, 4);
    lemma_le_value_of_bytes(header.session_seq_number as nat, 4);
    lemma_le_value_of_bytes(header.payload_length as nat, 2);
    assert(b[0] == header.auth_type.spec_to_byte());
    assert(b[1] == header.spec_flags_byte());
    if header.payload_type == PayloadType::Oem {
        lemma_le_bytes_len(header.oem_iana.unwrap() as nat, 4);
        lemma_le_bytes_len(header.oem_payload_id.unwrap() as nat, 2);
        lemma_le_value_of_bytes(header.oem_iana.unwrap() as nat, 4);
        lemma_le_value_of_bytes(header.oem_payload_id.unwrap() as nat, 2);
        assert(b.subrange(2, 6) =~= u32_le(header.oem_iana.unwrap()));
        assert(b.subrange(6, 8) =~= u16_le(header.oem_payload_id.unwrap()));
        assert(b.subrange(8, 12) =~= u32_le(header.rmcp_plus_session_id));
        assert(b.subrange(12, 16) =~= u32_le(header.session_seq_number));
        assert(b.subrange(16, 18) =~= u16_le(header.payload_length));
    } else {
        assert(b.subrange(2, 6) =~= u32_le(header.rmcp_plus_session_id));
        assert(b.subrange(6, 10) =~= u32_le(header.session_seq_number));
        assert(b.subrange(10, 12) =~= u16_le(header.payload_length));
    }
}

} // verus!
