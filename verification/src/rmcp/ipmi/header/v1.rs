//! The IPMI v1.5 session header, read far enough to tell it from v2.0.

use crate::err::{EIpmiHeader, EV1Header};
use crate::helpers::{
    append_be, be_bytes, be_value, lemma_le_bytes_len, lemma_le_value_of_bytes,
    lemma_pow256_values, lemma_reverse_twice, read_be,
};
use crate::rmcp::ipmi::header::AuthType;
use vstd::prelude::*;

verus! {

/// The IPMI v1.5 session header: ten bytes, or twenty-six where an
/// authentication code is present. Its integers are big-endian.
#[derive(Clone, Copy, Debug, PartialEq, Eq, Structural)]
pub struct IpmiV1Header {
    pub auth_type: AuthType,
    pub session_seq_number: u32,
    pub session_id: u32,
    pub auth_code: Option<u128>,
    pub payload_length: u8,
}

impl IpmiV1Header {
    /// The header that `bytes` hold, or why they hold none.
    pub open spec fn spec_parse(bytes: Seq<u8>) -> Result<IpmiV1Header, EIpmiHeader> {
        if bytes.len() != 10 && bytes.len() != 26 {
            Err(EIpmiHeader::V1(EV1Header::WrongLength))
        } else {
            match AuthType::spec_try_from(bytes[0]) {
                Err(e) => Err(e),
                Ok(AuthType::NoAuth) => Ok(
                    IpmiV1Header {
                        auth_type: AuthType::NoAuth,
                        session_seq_number: be_value(bytes.subrange(1, 5)) as u32,
                        session_id: be_value(bytes.subrange(5, 9)) as u32,
                        auth_code: None,
                        payload_length: bytes[9],
                    },
                ),
                Ok(auth_type) => if bytes.len() != 26 {
                    Err(EIpmiHeader::V1(EV1Header::WrongLength))
                } else {
                    Ok(
                        IpmiV1Header {
                            auth_type,
                            session_seq_number: be_value(bytes.subrange(1, 5)) as u32,
                            session_id: be_value(bytes.subrange(5, 9)) as u32,
                            auth_code: Some(be_value(bytes.subrange(9, 25)) as u128),
                            payload_length: bytes[25],
                        },
                    )
                },
            }
        }
    }

    /// Parses an IPMI v1.5 session header.
    pub fn try_from(value: &[u8]) -> (header: Result<IpmiV1Header, EIpmiHeader>)
        ensures
            header == IpmiV1Header::spec_parse(value@),
    {
        if value.len() != 10 && value.len() != 26 {
            return Err(EIpmiHeader::V1(EV1Header::WrongLength));
        }
        let auth_type = match AuthType::try_from(value[0]) {
            Err(e) => {
                return Err(e);
            },
            Ok(auth_type) => auth_type,
        };
        proof {
            lemma_pow256_values();
        }
        let session_seq_number = read_be(value, 1, 4) as u32;
        let session_id = read_be(value, 5, 4) as u32;
        match auth_type {
            AuthType::NoAuth => Ok(
                IpmiV1Header {
                    auth_type,
                    session_seq_number,
                    session_id,
                    auth_code: None,
                    payload_length: value[9],
                },
            ),
            _ => {
                if value.len() != 26 {
                    return Err(EIpmiHeader::V1(EV1Header::WrongLength));
                }
                Ok(
                    IpmiV1Header {
                        auth_type,
                        session_seq_number,
                        session_id,
                        auth_code: Some(read_be(value, 9, 16)),
                        payload_length: value[25],
                    },
                )
            },
        }
    }

    /// Whether this header can be serialised: it holds an authentication code
    /// exactly where its authentication type is not "none".
    pub open spec fn wf(&self) -> bool {
        (self.auth_type == AuthType::NoAuth) <==> (self.auth_code is None)
    }

    /// The bytes of this header.
    pub open spec fn spec_bytes(&self) -> Seq<u8> {
        let start = seq![self.auth_type.spec_to_byte()] + be_bytes(
            self.session_seq_number as nat,
            4,
        ) + be_bytes(self.session_id as nat, 4);
        let code = if self.auth_type == AuthType::NoAuth {
            Seq::<u8>::empty()
        } else {
            be_bytes(self.auth_code.unwrap() as nat, 16)
        };
        start + code + seq![self.payload_length]
    }

    /// Serialises this header.
    pub fn to_vec(&self) -> (bytes: Vec<u8>)
        requires
            self.wf(),
        ensures
            bytes@ == self.spec_bytes(),
    {
        let mut out: Vec<u8> = Vec::new();
        out.push(self.auth_type.to_byte());
        append_be(&mut out, self.session_seq_number as u128, 4);
        append_be(&mut out, self.session_id as u128, 4);
        match self.auth_type {
            AuthType::NoAuth => {},
            _ => {
                append_be(&mut out, self.auth_code.unwrap(), 16);
            },
        }
        out.push(self.payload_length);
        assert(out@ =~= self.spec_bytes());
        out
    }

    pub open spec fn spec_default() -> IpmiV1Header {
        IpmiV1Header {
            auth_type: AuthType::NoAuth,
            session_seq_number: 0,
            session_id: 0,
            auth_code: None,
            payload_length: 0,
        }
    }
}

impl Default for IpmiV1Header {
    fn default() -> (header: IpmiV1Header)
        ensures
            header == IpmiV1Header::spec_default(),
    {
        IpmiV1Header {
            auth_type: AuthType::NoAuth,
            session_seq_number: 0,
            session_id: 0,
            auth_code: None,
            payload_length: 0,
        }
    }
}

proof fn lemma_be_round_trip(x: nat, n: nat)
    requires
        x < crate::helpers::pow256(n),
    ensures
        be_value(be_bytes(x, n)) == x,
        be_bytes(x, n).len() == n,
{
    lemma_le_bytes_len(x, n);
    lemma_reverse_twice(crate::helpers::le_bytes(x, n));
    lemma_le_value_of_bytes(x, n);
}

/// A v1.5 session header survives being written and read back.
pub proof fn lemma_v1_header_round_trip(header: IpmiV1Header)
    requires
        header.wf(),
    ensures
        IpmiV1Header::spec_parse(header.spec_bytes()) == Ok::<IpmiV1Header, EIpmiHeader>(header),
{
    let b = header.spec_bytes();
    lemma_pow256_values();
    lemma_be_round_trip(header.session_seq_number as nat, 4);
    lemma_be_round_trip(header.session_id as nat, 4);
    assert(b[0] == header.auth_type.spec_to_byte());
    assert(b.subrange(1, 5) =~= be_bytes(header.session_seq_number as nat, 4));
    assert(b.subrange(5, 9) =~= be_bytes(header.session_id as nat, 4));
    if header.auth_type != AuthType::NoAuth {
        lemma_be_round_trip(header.auth_code.unwrap() as nat, 16);
        assert(b.subrange(9, 25) =~= be_bytes(header.auth_code.unwrap() as nat, 16));
    }
}

} // verus!
