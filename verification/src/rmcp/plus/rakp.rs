//! The four messages of the RAKP key exchange.

use crate::err::{ECommand, ECommandCode, EClient, EIpmiPayload, EPacket, Error};
use crate::helpers::{
    append_bytes, append_u128_to_vec, append_u32_to_vec, copy_range, le_value, lemma_le_bytes_len,
    lemma_le_value_of_bytes, lemma_pow256_values, read_u128_le, read_u32_le, u128_le, u32_le,
};
use crate::rmcp::header::RmcpHeader;
use crate::rmcp::ipmi::commands::app::channel::{lemma_privilege_round_trip, Privilege};
use crate::rmcp::ipmi::commands::CommandCode;
use crate::rmcp::ipmi::header::v2::{IpmiV2Header, PayloadType};
use crate::rmcp::ipmi::header::{AuthType, IpmiHeader};
use crate::rmcp::packet::{Packet, Payload};
use crate::rmcp::plus::open_session::StatusCode;
use vstd::prelude::*;

verus! {

/// The longest user name the protocol carries, in bytes.
pub const MAX_USERNAME_LEN: usize = 16;

/// The role byte of the key exchange: the privilege level, with bit 4 set
/// where the user is looked up by name and privilege rather than by name
/// alone.
pub open spec fn spec_privilege(nameonly_lookup: bool, level: Privilege) -> u8 {
    if nameonly_lookup {
        level.spec_to_byte()
    } else {
        (level.spec_to_byte() + 16) as u8
    }
}

/// The role byte of the key exchange.
pub fn privilege(nameonly_lookup: bool, level: Privilege) -> (role: u8)
    ensures
        role == spec_privilege(nameonly_lookup, level),
{
    if nameonly_lookup {
        level.to_byte()
    } else {
        level.to_byte() + 16
    }
}

/// Any of the four RAKP messages.
#[derive(Clone, Debug, PartialEq, Eq)]
pub enum Rakp {
    Message1(RAKPMessage1),
    Message2(RAKPMessage2),
    Message3(RAKPMessage3),
    Message4(RAKPMessage4),
}

/// A RAKP message as a mathematical value.
pub enum RakpView {
    Message1(RAKPMessage1View),
    Message2(RAKPMessage2View),
    Message3(RAKPMessage3View),
    Message4(RAKPMessage4View),
}

impl View for Rakp {
    type V = RakpView;

    open spec fn view(&self) -> RakpView {
        match *self {
            Rakp::Message1(m) => RakpView::Message1(m@),
            Rakp::Message2(m) => RakpView::Message2(m@),
            Rakp::Message3(m) => RakpView::Message3(m@),
            Rakp::Message4(m) => RakpView::Message4(m@),
        }
    }
}

/// RAKP message 1: the console's random number, the role it asks for and
/// the user name.
#[derive(Clone, Debug, PartialEq, Eq)]
pub struct RAKPMessage1 {
    pub message_tag: u8,
    /// The session identifier the BMC chose.
    pub managed_id: u32,
    pub console_rnd_number: u128,
    pub privilege_level: Privilege,
    pub nameonly_lookup: bool,
    pub username_length: u8,
    /// The user name, in UTF-8.
    pub username: Vec<u8>,
}

/// RAKP message 1 as a mathematical value.
pub struct RAKPMessage1View {
    pub message_tag: u8,
    pub managed_id: u32,
    pub console_rnd_number: u128,
    pub privilege_level: Privilege,
    pub nameonly_lookup: bool,
    pub username_length: u8,
    pub username: Seq<u8>,
}

impl View for RAKPMessage1 {
    type V = RAKPMessage1View;

    open spec fn view(&self) -> RAKPMessage1View {
        RAKPMessage1View {
            message_tag: self.message_tag,
            managed_id: self.managed_id,
            console_rnd_number: self.console_rnd_number,
            privilege_level: self.privilege_level,
            nameonly_lookup: self.nameonly_lookup,
            username_length: self.username_length,
            username: self.username@,
        }
    }
}

impl RAKPMessage1View {
    /// Whether the message can be sent: the name has at most sixteen bytes,
    /// and the length byte says how many.
    pub open spec fn wf(&self) -> bool {
        &&& self.username.len() <= MAX_USERNAME_LEN
        &&& self.username_length == self.username.len()
    }

    pub open spec fn spec_request_role(&self) -> u8 {
        spec_privilege(self.nameonly_lookup, self.privilege_level)
    }

    /// The bytes of this message: twenty-eight and the user name.
    pub open spec fn spec_bytes(&self) -> Seq<u8> {
        seq![self.message_tag, 0u8, 0u8, 0u8] + u32_le(self.managed_id) + u128_le(
            self.console_rnd_number,
        ) + seq![self.spec_request_role(), 0u8, 0u8, self.username_length] + self.username
    }

    /// A message has twenty-eight bytes and the user name.
    pub proof fn lemma_bytes_len(&self)
        ensures
            self.spec_bytes().len() == 28 + self.username.len(),
    {
        lemma_le_bytes_len(self.managed_id as nat, 4);
        lemma_le_bytes_len(self.console_rnd_number as nat, 16);
    }

    /// The message that `bytes` hold, or why they hold none.
    pub open spec fn spec_parse(bytes: Seq<u8>) -> Result<RAKPMessage1View, Error> {
        if bytes.len() < 28 || bytes.len() != 28 + bytes[27] {
            Err(Error::Packet(EPacket::IpmiPayload(EIpmiPayload::WrongLength)))
        } else if bytes[27] > MAX_USERNAME_LEN {
            Err(Error::Client(EClient::UsernameTooLong))
        } else {
            match Privilege::spec_try_from((bytes[24] % 16) as u8) {
                Err(e) => Err(Error::Packet(EPacket::IpmiPayload(e))),
                Ok(privilege_level) => Ok(
                    RAKPMessage1View {
                        message_tag: bytes[0],
                        managed_id: le_value(bytes.subrange(4, 8)) as u32,
                        console_rnd_number: le_value(bytes.subrange(8, 24)) as u128,
                        privilege_level,
                        nameonly_lookup: bytes[24] % 32 < 16,
                        username_length: bytes[27],
                        username: bytes.subrange(28, bytes.len() as int),
                    },
                ),
            }
        }
    }
}

impl RAKPMessage1 {
    /// RAKP message 1 for `username`. A name of more than sixteen bytes is
    /// rejected.
    pub fn new(
        message_tag: u8,
        managed_system_session_id: u32,
        remote_console_random_number: u128,
        nameonly_lookup: bool,
        requested_max_privilege: Privilege,
        username: String,
    ) -> (message: Result<RAKPMessage1, Error>)
        ensures
            vstd::utf8::encode_utf8(username@).len() > MAX_USERNAME_LEN ==> message == Err::<
                RAKPMessage1,
                Error,
            >(Error::Client(EClient::UsernameTooLong)),
            vstd::utf8::encode_utf8(username@).len() <= MAX_USERNAME_LEN ==> (message matches Ok(m)
                && m@ == (RAKPMessage1View {
                message_tag,
                managed_id: managed_system_session_id,
                console_rnd_number: remote_console_random_number,
                privilege_level: requested_max_privilege,
                nameonly_lookup,
                username_length: vstd::utf8::encode_utf8(username@).len() as u8,
                username: vstd::utf8::encode_utf8(username@),
            }) && m@.wf()),
    {
        let name = username.as_str().as_bytes();
        RAKPMessage1::with_name(
            message_tag,
            managed_system_session_id,
            remote_console_random_number,
            nameonly_lookup,
            requested_max_privilege,
            name,
        )
    }

    /// RAKP message 1 for the user name with the given UTF-8 bytes. A name of
    /// more than sixteen bytes is rejected.
    pub fn with_name(
        message_tag: u8,
        managed_system_session_id: u32,
        remote_console_random_number: u128,
        nameonly_lookup: bool,
        requested_max_privilege: Privilege,
        username: &[u8],
    ) -> (message: Result<RAKPMessage1, Error>)
        ensures
            username@.len() > MAX_USERNAME_LEN ==> message == Err::<RAKPMessage1, Error>(
                Error::Client(EClient::UsernameTooLong),
            ),
            username@.len() <= MAX_USERNAME_LEN ==> (message matches Ok(m) && m@ == (
            RAKPMessage1View {
                message_tag,
                managed_id: managed_system_session_id,
                console_rnd_number: remote_console_random_number,
                privilege_level: requested_max_privilege,
                nameonly_lookup,
                username_length: username@.len() as u8,
                username: username@,
            }) && m@.wf()),
    {
        if username.len() > MAX_USERNAME_LEN {
            return Err(Error::Client(EClient::UsernameTooLong));
        }
        assert(username@.subrange(0, username@.len() as int) =~= username@);
        Ok(
            RAKPMessage1 {
                message_tag,
                managed_id: managed_system_session_id,
                console_rnd_number: remote_console_random_number,
                nameonly_lookup,
                privilege_level: requested_max_privilege,
                username_length: username.len() as u8,
                username: copy_range(username, 0, username.len()),
            },
        )
    }

    /// The role byte this message carries.
    pub fn request_role(&self) -> (role: u8)
        ensures
            role == self@.spec_request_role(),
    {
        privilege(self.nameonly_lookup, self.privilege_level)
    }

    /// Serialises this message.
    pub fn to_vec(&self) -> (bytes: Vec<u8>)
        requires
            self@.wf(),
        ensures
            bytes@ == self@.spec_bytes(),
            bytes@.len() == 28 + self.username@.len(),
    {
        let mut out: Vec<u8> = Vec::new();
        out.push(self.message_tag);
        out.push(0);
        out.push(0);
        out.push(0);
        append_u32_to_vec(&mut out, self.managed_id);
        append_u128_to_vec(&mut out, self.console_rnd_number);
        out.push(self.request_role());
        out.push(0);
        out.push(0);
        out.push(self.username_length);
        append_bytes(&mut out, self.username.as_slice());
        proof {
            lemma_le_bytes_len(self.managed_id as nat, 4);
            lemma_le_bytes_len(self.console_rnd_number as nat, 16);
            assert(out@ =~= self@.spec_bytes());
        }
        out
    }

    /// Parses RAKP message 1.
    pub fn try_from(value: &[u8]) -> (message: Result<RAKPMessage1, Error>)
        ensures
            match (message, RAKPMessage1View::spec_parse(value@)) {
                (Ok(m), Ok(v)) => m@ == v,
                (Err(e), Err(f)) => e == f,
                _ => false,
            },
    {
        let len = value.len();
        if len < 28 || len != 28 + value[27] as usize {
            return Err(Error::Packet(EPacket::IpmiPayload(EIpmiPayload::WrongLength)));
        }
        if value[27] as usize > MAX_USERNAME_LEN {
            return Err(Error::Client(EClient::UsernameTooLong));
        }
        let privilege_level = match Privilege::try_from(value[24] % 16) {
            Err(e) => {
                return Err(Error::Packet(EPacket::IpmiPayload(e)));
            },
            Ok(p) => p,
        };
        Ok(
            RAKPMessage1 {
                message_tag: value[0],
                managed_id: read_u32_le(value, 4),
                console_rnd_number: read_u128_le(value, 8),
                privilege_level,
                nameonly_lookup: value[24] % 32 < 16,
                username_length: value[27],
                username: copy_range(value, 28, len),
            },
        )
    }

    /// The unauthenticated packet that carries this message.
    pub fn to_packet(self) -> (packet: Packet)
        requires
            self@.wf(),
        ensures
            packet.rmcp_header == RmcpHeader::spec_default(),
            packet.ipmi_header == IpmiHeader::V2_0(
                IpmiV2Header::spec_new(
                    AuthType::RmcpPlus,
                    false,
                    false,
                    PayloadType::RAKP1,
                    0,
                    0,
                    (28 + self.username_length) as u16,
                ),
            ),
            packet.payload matches Payload::Rakp(Rakp::Message1(m)) && m@ == self@,
    {
        let len = self.username_length as u16 + 28;
        Packet::new(
            RmcpHeader::default(),
            IpmiHeader::V2_0(IpmiV2Header::new_pre(PayloadType::RAKP1, len)),
            Payload::Rakp(Rakp::Message1(self)),
        )
    }
}

/// Reading the bytes of a RAKP message 1 gives the message back.
pub proof fn lemma_rakp1_round_trip(message: RAKPMessage1View)
    requires
        message.wf(),
    ensures
        RAKPMessage1View::spec_parse(message.spec_bytes()) == Ok::<RAKPMessage1View, Error>(
            message,
        ),
{
    let b = message.spec_bytes();
    lemma_pow256_values();
    lemma_le_bytes_len(message.managed_id as nat, 4);
    lemma_le_bytes_len(message.console_rnd_number as nat, 16);
    lemma_le_value_of_bytes(message.managed_id as nat, 4);
    lemma_le_value_of_bytes(message.console_rnd_number as nat, 16);
    lemma_privilege_round_trip(message.privilege_level);
    assert(b.len() == 28 + message.username.len());
    assert(b[0] == message.message_tag);
    assert(b[24] == message.spec_request_role());
    assert(b[27] == message.username_length);
    assert(b.subrange(4, 8) =~= u32_le(message.managed_id));
    assert(b.subrange(8, 24) =~= u128_le(message.console_rnd_number));
    assert(b.subrange(28, b.len() as int) =~= message.username);
}

/// RAKP message 2: the BMC's random number and GUID, authenticated with the
/// user's password.
#[derive(Clone, Copy, Debug, PartialEq, Eq)]
pub struct RAKPMessage2 {
    pub message_tag: u8,
    pub status_code: StatusCode,
    pub console_id: u32,
    pub managed_rnd_number: u128,
    pub managed_guid: u128,
    pub key_exchange_auth_code: Option<[u8; 20]>,
}

/// RAKP message 2 as a mathematical value.
pub struct RAKPMessage2View {
    pub message_tag: u8,
    pub status_code: StatusCode,
    pub console_id: u32,
    pub managed_rnd_number: u128,
    pub managed_guid: u128,
    pub key_exchange_auth_code: Option<Seq<u8>>,
}

impl View for RAKPMessage2 {
    type V = RAKPMessage2View;

    open spec fn view(&self) -> RAKPMessage2View {
        RAKPMessage2View {
            message_tag: self.message_tag,
            status_code: self.status_code,
            console_id: self.console_id,
            managed_rnd_number: self.managed_rnd_number,
            managed_guid: self.managed_guid,
            key_exchange_auth_code: match self.key_exchange_auth_code {
                Some(code) => Some(code@),
                None => None,
            },
        }
    }
}

impl RAKPMessage2View {
    /// What is missing from a RAKP message 2 that is shorter than eight
    /// bytes.
    pub open spec fn too_short(len: nat) -> Error {
        Error::Packet(
            EPacket::IpmiPayload(
                EIpmiPayload::Command(
                    ECommand::NotEnoughData(
                        ECommandCode {
                            command: CommandCode::Raw(1),
                            expected_len: 8,
                            get_len: len as usize,
                        },
                    ),
                ),
            ),
        )
    }

    /// The message that `bytes` hold, or why they hold none. A message has
    /// 8 bytes (a refusal), 40 (no authentication code) or 60.
    pub open spec fn spec_parse(bytes: Seq<u8>) -> Result<RAKPMessage2View, Error> {
        if bytes.len() < 8 {
            Err(RAKPMessage2View::too_short(bytes.len()))
        } else if bytes.len() != 8 && bytes.len() != 40 && bytes.len() != 60 {
            Err(Error::Packet(EPacket::IpmiPayload(EIpmiPayload::WrongLength)))
        } else {
            Ok(
                RAKPMessage2View {
                    message_tag: bytes[0],
                    status_code: StatusCode::spec_from(bytes[1]),
                    console_id: le_value(bytes.subrange(4, 8)) as u32,
                    managed_rnd_number: if bytes.len() == 8 {
                        0
                    } else {
                        le_value(bytes.subrange(8, 24)) as u128
                    },
                    managed_guid: if bytes.len() == 8 {
                        0
                    } else {
                        le_value(bytes.subrange(24, 40)) as u128
                    },
                    key_exchange_auth_code: if bytes.len() == 60 {
                        Some(bytes.subrange(40, 60))
                    } else {
                        None
                    },
                },
            )
        }
    }
}

impl RAKPMessage2 {
    /// Parses RAKP message 2.
    pub fn try_from(value: &[u8]) -> (message: Result<RAKPMessage2, Error>)
        ensures
            match (message, RAKPMessage2View::spec_parse(value@)) {
                (Ok(m), Ok(v)) => m@ == v,
                (Err(e), Err(f)) => e == f,
                _ => false,
            },
    {
        let len = value.len();
        if len < 8 {
            return Err(
                Error::Packet(
                    EPacket::IpmiPayload(
                        EIpmiPayload::Command(
                            ECommand::NotEnoughData(ECommandCode::new(CommandCode::Raw(1), 8, len)),
                        ),
                    ),
                ),
            );
        }
        if len != 8 && len != 40 && len != 60 {
            return Err(Error::Packet(EPacket::IpmiPayload(EIpmiPayload::WrongLength)));
        }
        let mut managed_rnd_number: u128 = 0;
        let mut managed_guid: u128 = 0;
        let mut key_exchange_auth_code: Option<[u8; 20]> = None;
        if len >= 40 {
            managed_rnd_number = read_u128_le(value, 8);
            managed_guid = read_u128_le(value, 24);
        }
        if len == 60 {
            let mut code = [0u8; 20];
            let mut i: usize = 0;
            while i < 20
                invariant
                    i <= 20,
                    value@.len() == 60,
                    forall|j: int| 0 <= j < i ==> code@[j] == value@[40 + j],
                decreases 20 - i,
            {
                code[i] = value[40 + i];
                i += 1;
            }
            assert(code@ =~= value@.subrange(40, 60));
            key_exchange_auth_code = Some(code);
        }
        Ok(
            RAKPMessage2 {
                message_tag: value[0],
                status_code: StatusCode::from(value[1]),
                console_id: read_u32_le(value, 4),
                managed_rnd_number,
                managed_guid,
                key_exchange_auth_code,
            },
        )
    }
}

/// RAKP message 3: the console's proof that it knows the password.
#[derive(Clone, Debug, PartialEq, Eq)]
pub struct RAKPMessage3 {
    pub message_tag: u8,
    pub status_code: StatusCode,
    /// The session identifier the BMC chose.
    pub managed_id: u32,
    pub key_exchange_auth_code: Option<Vec<u8>>,
}

/// RAKP message 3 as a mathematical value.
pub struct RAKPMessage3View {
    pub message_tag: u8,
    pub status_code: StatusCode,
    pub managed_id: u32,
    pub key_exchange_auth_code: Option<Seq<u8>>,
}

impl View for RAKPMessage3 {
    type V = RAKPMessage3View;

    open spec fn view(&self) -> RAKPMessage3View {
        RAKPMessage3View {
            message_tag: self.message_tag,
            status_code: self.status_code,
            managed_id: self.managed_id,
            key_exchange_auth_code: match self.key_exchange_auth_code {
                Some(code) => Some(code@),
                None => None,
            },
        }
    }
}

/// The longest authentication code that fits the payload of a packet beside
/// the eight bytes before it.
pub const MAX_AUTH_CODE_LEN: usize = 65527;

impl RAKPMessage3View {
    /// Whether the message can be sent: its authentication code, if it has
    /// one, fits a packet.
    pub open spec fn wf(&self) -> bool {
        self.key_exchange_auth_code matches Some(code) ==> code.len() <= MAX_AUTH_CODE_LEN
    }

    /// Whether reading the bytes of this message gives it back: the
    /// authentication code is not empty, and the status is not a reserved
    /// code that has a name of its own.
    pub open spec fn canonical(&self) -> bool {
        &&& self.key_exchange_auth_code matches Some(code) ==> code.len() > 0
        &&& StatusCode::spec_from(self.status_code.spec_to_byte()) == self.status_code
    }

    pub open spec fn code_bytes(&self) -> Seq<u8> {
        match self.key_exchange_auth_code {
            Some(code) => code,
            None => Seq::<u8>::empty(),
        }
    }

    /// The bytes of this message: eight and the authentication code.
    pub open spec fn spec_bytes(&self) -> Seq<u8> {
        seq![self.message_tag, self.status_code.spec_to_byte(), 0u8, 0u8] + u32_le(self.managed_id)
            + self.code_bytes()
    }

    /// A message has eight bytes and the authentication code.
    pub proof fn lemma_bytes_len(&self)
        ensures
            self.spec_bytes().len() == 8 + self.code_bytes().len(),
    {
        lemma_le_bytes_len(self.managed_id as nat, 4);
    }

    /// The message that `bytes` hold, or why they hold none.
    pub open spec fn spec_parse(bytes: Seq<u8>) -> Result<RAKPMessage3View, Error> {
        if bytes.len() < 8 {
            Err(Error::Packet(EPacket::IpmiPayload(EIpmiPayload::WrongLength)))
        } else {
            Ok(
                RAKPMessage3View {
                    message_tag: bytes[0],
                    status_code: StatusCode::spec_from(bytes[1]),
                    managed_id: le_value(bytes.subrange(4, 8)) as u32,
                    key_exchange_auth_code: if bytes.len() == 8 {
                        None
                    } else {
                        Some(bytes.subrange(8, bytes.len() as int))
                    },
                },
            )
        }
    }
}

impl RAKPMessage3 {
    pub fn new(
        message_tag: u8,
        rmcp_plus_status_code: StatusCode,
        managed_system_session_id: u32,
        key_exchange_auth_code: Option<Vec<u8>>,
    ) -> (message: RAKPMessage3)
        ensures
            message.message_tag == message_tag,
            message.status_code == rmcp_plus_status_code,
            message.managed_id == managed_system_session_id,
            message.key_exchange_auth_code == key_exchange_auth_code,
    {
        RAKPMessage3 {
            message_tag,
            status_code: rmcp_plus_status_code,
            managed_id: managed_system_session_id,
            key_exchange_auth_code,
        }
    }

    /// Serialises this message.
    pub fn to_vec(&self) -> (bytes: Vec<u8>)
        ensures
            bytes@ == self@.spec_bytes(),
            bytes@.len() == 8 + self@.code_bytes().len(),
    {
        let mut out: Vec<u8> = Vec::new();
        out.push(self.message_tag);
        out.push(self.status_code.to_byte());
        out.push(0);
        out.push(0);
        append_u32_to_vec(&mut out, self.managed_id);
        match &self.key_exchange_auth_code {
            Some(code) => {
                append_bytes(&mut out, code.as_slice());
            },
            None => {},
        }
        proof {
            lemma_le_bytes_len(self.managed_id as nat, 4);
            assert(out@ =~= self@.spec_bytes());
        }
        out
    }

    /// Parses RAKP message 3.
    pub fn try_from(value: &[u8]) -> (message: Result<RAKPMessage3, Error>)
        ensures
            match (message, RAKPMessage3View::spec_parse(value@)) {
                (Ok(m), Ok(v)) => m@ == v,
                (Err(e), Err(f)) => e == f,
                _ => false,
            },
    {
        let len = value.len();
        if len < 8 {
            return Err(Error::Packet(EPacket::IpmiPayload(EIpmiPayload::WrongLength)));
        }
        let key_exchange_auth_code = if len == 8 {
            None
        } else {
            Some(copy_range(value, 8, len))
        };
        Ok(
            RAKPMessage3 {
                message_tag: value[0],
                status_code: StatusCode::from(value[1]),
                managed_id: read_u32_le(value, 4),
                key_exchange_auth_code,
            },
        )
    }

    /// The unauthenticated packet that carries this message.
    pub fn to_packet(self) -> (packet: Packet)
        requires
            self@.wf(),
        ensures
            packet.rmcp_header == RmcpHeader::spec_default(),
            packet.ipmi_header == IpmiHeader::V2_0(
                IpmiV2Header::spec_new(
                    AuthType::RmcpPlus,
                    false,
                    false,
                    PayloadType::RAKP3,
                    0,
                    0,
                    (8 + self@.code_bytes().len()) as u16,
                ),
            ),
            packet.payload matches Payload::Rakp(Rakp::Message3(m)) && m@ == self@,
    {
        let len: u16 = match &self.key_exchange_auth_code {
            None => 8,
            Some(auth_code) => (auth_code.len() + 8) as u16,
        };
        Packet::new(
            RmcpHeader::default(),
            IpmiHeader::V2_0(IpmiV2Header::new_pre(PayloadType::RAKP3, len)),
            Payload::Rakp(Rakp::Message3(self)),
        )
    }
}

/// Reading the bytes of a canonical RAKP message 3 gives the message back.
pub proof fn lemma_rakp3_round_trip(message: RAKPMessage3View)
    requires
        message.canonical(),
    ensures
        RAKPMessage3View::spec_parse(message.spec_bytes()) == Ok::<RAKPMessage3View, Error>(
            message,
        ),
{
    let b = message.spec_bytes();
    lemma_pow256_values();
    lemma_le_bytes_len(message.managed_id as nat, 4);
    lemma_le_value_of_bytes(message.managed_id as nat, 4);
    assert(b.len() == 8 + message.code_bytes().len());
    assert(b[0] == message.message_tag);
    assert(b[1] == message.status_code.spec_to_byte());
    assert(b.subrange(4, 8) =~= u32_le(message.managed_id));
    assert(b.subrange(8, b.len() as int) =~= message.code_bytes());
}

/// RAKP message 4: the BMC's proof that it derived the same session key.
#[derive(Clone, Copy, Debug, PartialEq, Eq)]
pub struct RAKPMessage4 {
    pub message_tag: u8,
    pub status_code: StatusCode,
    pub console_id: u32,
    /// The integrity check value: HMAC-SHA1 truncated to twelve bytes.
    pub integrity_auth_code: Option<[u8; 12]>,
}

/// RAKP message 4 as a mathematical value.
pub struct RAKPMessage4View {
    pub message_tag: u8,
    pub status_code: StatusCode,
    pub console_id: u32,
    pub integrity_auth_code: Option<Seq<u8>>,
}

impl View for RAKPMessage4 {
    type V = RAKPMessage4View;

    open spec fn view(&self) -> RAKPMessage4View {
        RAKPMessage4View {
            message_tag: self.message_tag,
            status_code: self.status_code,
            console_id: self.console_id,
            integrity_auth_code: match self.integrity_auth_code {
                Some(code) => Some(code@),
                None => None,
            },
        }
    }
}

impl RAKPMessage4View {
    /// What is missing from a RAKP message 4 that is shorter than eight
    /// bytes.
    pub open spec fn too_short(len: nat) -> Error {
        Error::Packet(
            EPacket::IpmiPayload(
                EIpmiPayload::Command(
                    ECommand::NotEnoughData(
                        ECommandCode {
                            command: CommandCode::Raw(3),
                            expected_len: 8,
                            get_len: len as usize,
                        },
                    ),
                ),
            ),
        )
    }

    /// The message that `bytes` hold, or why they hold none. A message has
    /// 8 bytes (a refusal) or 20: an integrity check value of any other
    /// length than twelve is a protocol violation.
    pub open spec fn spec_parse(bytes: Seq<u8>) -> Result<RAKPMessage4View, Error> {
        if bytes.len() < 8 {
            Err(RAKPMessage4View::too_short(bytes.len()))
        } else if bytes.len() != 8 && bytes.len() != 20 {
            Err(Error::Packet(EPacket::IpmiPayload(EIpmiPayload::WrongLength)))
        } else {
            Ok(
                RAKPMessage4View {
                    message_tag: bytes[0],
                    status_code: StatusCode::spec_from(bytes[1]),
                    console_id: le_value(bytes.subrange(4, 8)) as u32,
                    integrity_auth_code: if bytes.len() == 20 {
                        Some(bytes.subrange(8, 20))
                    } else {
                        None
                    },
                },
            )
        }
    }
}

impl RAKPMessage4 {
    /// Parses RAKP message 4.
    pub fn try_from(value: &[u8]) -> (message: Result<RAKPMessage4, Error>)
        ensures
            match (message, RAKPMessage4View::spec_parse(value@)) {
                (Ok(m), Ok(v)) => m@ == v,
                (Err(e), Err(f)) => e == f,
                _ => false,
            },
    {
        let len = value.len();
        if len < 8 {
            return Err(
                Error::Packet(
                    EPacket::IpmiPayload(
                        EIpmiPayload::Command(
                            ECommand::NotEnoughData(ECommandCode::new(CommandCode::Raw(3), 8, len)),
                        ),
                    ),
                ),
            );
        }
        if len != 8 && len != 20 {
            return Err(Error::Packet(EPacket::IpmiPayload(EIpmiPayload::WrongLength)));
        }
        let mut integrity_auth_code: Option<[u8; 12]> = None;
        if len == 20 {
            let mut code = [0u8; 12];
            let mut i: usize = 0;
            while i < 12
                invariant
                    i <= 12,
                    value@.len() == 20,
                    forall|j: int| 0 <= j < i ==> code@[j] == value@[8 + j],
                decreases 12 - i,
            {
                code[i] = value[8 + i];
                i += 1;
            }
            assert(code@ =~= value@.subrange(8, 20));
            integrity_auth_code = Some(code);
        }
        Ok(
            RAKPMessage4 {
                message_tag: value[0],
                status_code: StatusCode::from(value[1]),
                console_id: read_u32_le(value, 4),
                integrity_auth_code,
            },
        )
    }
}

} // verus!
