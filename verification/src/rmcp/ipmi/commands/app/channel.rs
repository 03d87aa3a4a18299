//! The channel authentication capabilities command, with which a console
//! discovers what a BMC supports.

use crate::err::{ECommand, EIpmiPayload, EPacket, Error};
use crate::helpers::{ms_bit, u8_ms_bit};
use crate::rmcp::header::RmcpHeader;
use crate::rmcp::ipmi::commands::CommandCode;
use crate::rmcp::ipmi::header::v2::{IpmiV2Header, PayloadType};
use crate::rmcp::ipmi::header::{AuthType, IpmiHeader};
use crate::rmcp::ipmi::payload::netfn::NetFn;
use crate::rmcp::ipmi::payload::request::{ReqPayload, ReqPayloadView};
use crate::rmcp::packet::{Packet, Payload};
use vstd::prelude::*;

verus! {

/// A privilege level, or role.
#[derive(Clone, Copy, Debug, PartialEq, Eq, Structural)]
pub enum Privilege {
    Reserved,
    Callback,
    User,
    Operator,
    Administrator,
    Oem,
}

impl Privilege {
    /// The privilege level that the byte `value` names, if it names one.
    pub open spec fn spec_try_from(value: u8) -> Result<Privilege, EIpmiPayload> {
        if value == 0x00 {
            Ok(Privilege::Reserved)
        } else if value == 0x01 {
            Ok(Privilege::Callback)
        } else if value == 0x02 {
            Ok(Privilege::User)
        } else if value == 0x03 {
            Ok(Privilege::Operator)
        } else if value == 0x04 {
            Ok(Privilege::Administrator)
        } else if value == 0x05 {
            Ok(Privilege::Oem)
        } else {
            Err(EIpmiPayload::Command(ECommand::UnknownPrivilege(value)))
        }
    }

    /// The privilege level that the byte `value` names, if it names one.
    pub fn try_from(value: u8) -> (converted: Result<Privilege, EIpmiPayload>)
        ensures
            converted == Privilege::spec_try_from(value),
    {
        if value == 0x00 {
            Ok(Privilege::Reserved)
        } else if value == 0x01 {
            Ok(Privilege::Callback)
        } else if value == 0x02 {
            Ok(Privilege::User)
        } else if value == 0x03 {
            Ok(Privilege::Operator)
        } else if value == 0x04 {
            Ok(Privilege::Administrator)
        } else if value == 0x05 {
            Ok(Privilege::Oem)
        } else {
            Err(EIpmiPayload::Command(ECommand::UnknownPrivilege(value)))
        }
    }

    /// The byte that names this privilege level.
    pub open spec fn spec_to_byte(&self) -> u8 {
        match *self {
            Privilege::Reserved => 0x00,
            Privilege::Callback => 0x01,
            Privilege::User => 0x02,
            Privilege::Operator => 0x03,
            Privilege::Administrator => 0x04,
            Privilege::Oem => 0x05,
        }
    }

    /// The byte that names this privilege level.
    pub fn to_byte(&self) -> (byte: u8)
        ensures
            byte == self.spec_to_byte(),
    {
        match *self {
            Privilege::Reserved => 0x00,
            Privilege::Callback => 0x01,
            Privilege::User => 0x02,
            Privilege::Operator => 0x03,
            Privilege::Administrator => 0x04,
            Privilege::Oem => 0x05,
        }
    }
}

/// A privilege level survives being written and read back.
pub proof fn lemma_privilege_round_trip(privilege: Privilege)
    ensures
        Privilege::spec_try_from(privilege.spec_to_byte()) == Ok::<Privilege, EIpmiPayload>(
            privilege,
        ),
        privilege.spec_to_byte() <= 5,
{
}

/// Whether the key-generating key K_G of a BMC is set.
#[derive(Clone, Copy, Debug, PartialEq, Eq, Structural)]
pub enum KG {
    /// K_G is all zeros: the user's key takes its place in the key exchange.
    Defualt,
    /// K_G is set: opening a session takes knowledge of it.
    NonZero,
}

impl KG {
    pub open spec fn spec_from(value: bool) -> KG {
        if value {
            KG::NonZero
        } else {
            KG::Defualt
        }
    }

    pub fn from(value: bool) -> (converted: KG)
        ensures
            converted == KG::spec_from(value),
    {
        if value {
            KG::NonZero
        } else {
            KG::Defualt
        }
    }
}

/// Whether one kind of login is enabled.
#[derive(Clone, Copy, Debug, PartialEq, Eq, Structural)]
pub enum AnonStatus {
    Enabled,
    Disabled,
}

impl AnonStatus {
    pub open spec fn spec_from(value: bool) -> AnonStatus {
        if value {
            AnonStatus::Enabled
        } else {
            AnonStatus::Disabled
        }
    }

    pub fn from(value: bool) -> (converted: AnonStatus)
        ensures
            converted == AnonStatus::spec_from(value),
    {
        if value {
            AnonStatus::Enabled
        } else {
            AnonStatus::Disabled
        }
    }
}

/// Which kinds of login a BMC has enabled.
#[derive(Clone, Copy, Debug, PartialEq, Eq, Structural)]
pub struct AnonLogin {
    /// Users with a name.
    pub non_null_username: AnonStatus,
    /// Users without a name but with a password.
    pub null_username: AnonStatus,
    /// Users with neither name nor password.
    pub anonymous_login: AnonStatus,
}

impl AnonLogin {
    pub fn new(
        non_null_username: AnonStatus,
        null_username: AnonStatus,
        anonymous_login: AnonStatus,
    ) -> (login: AnonLogin)
        ensures
            login == (AnonLogin { non_null_username, null_username, anonymous_login }),
    {
        AnonLogin { non_null_username, null_username, anonymous_login }
    }
}

/// A version of the protocol.
#[derive(Clone, Copy, Debug, PartialEq, Eq, Structural)]
pub enum AuthVersion {
    IpmiV2,
    IpmiV1_5,
}

impl AuthVersion {
    pub open spec fn spec_from(value: bool) -> AuthVersion {
        if value {
            AuthVersion::IpmiV2
        } else {
            AuthVersion::IpmiV1_5
        }
    }

    pub fn from(value: bool) -> (converted: AuthVersion)
        ensures
            converted == AuthVersion::spec_from(value),
    {
        if value {
            AuthVersion::IpmiV2
        } else {
            AuthVersion::IpmiV1_5
        }
    }
}

/// The request for the authentication capabilities of a channel.
#[derive(Clone, Copy, Debug, PartialEq, Eq, Structural)]
pub struct GetChannelAuthCapabilitiesRequest {
    /// Whether the extended (IPMI v2.0) capabilities are asked for.
    pub channel_version: bool,
    /// The channel; 0xE is the channel the request arrives on.
    pub channel_number: u8,
    pub max_privilege: Privilege,
}

impl GetChannelAuthCapabilitiesRequest {
    pub fn new(channel_version: bool, channel_number: u8, max_privilege: Privilege) -> (request:
        GetChannelAuthCapabilitiesRequest)
        ensures
            request == (GetChannelAuthCapabilitiesRequest {
                channel_version,
                channel_number,
                max_privilege,
            }),
    {
        GetChannelAuthCapabilitiesRequest { channel_version, channel_number, max_privilege }
    }

    /// The two data bytes of the request: the version flag above the low
    /// four bits of the channel number, then the privilege level.
    pub open spec fn spec_bytes(&self) -> Seq<u8> {
        seq![
            ((if self.channel_version {
                128int
            } else {
                0int
            }) + self.channel_number % 16) as u8,
            self.max_privilege.spec_to_byte(),
        ]
    }

    /// Serialises the data of the request.
    pub fn to_vec(&self) -> (bytes: Vec<u8>)
        ensures
            bytes@ == self.spec_bytes(),
    {
        let version: u8 = if self.channel_version {
            128
        } else {
            0
        };
        let mut out: Vec<u8> = Vec::new();
        out.push(version + self.channel_number % 16);
        out.push(self.max_privilege.to_byte());
        assert(out@ =~= self.spec_bytes());
        out
    }

    /// The unauthenticated IPMI v2.0 packet that carries the request.
    pub fn create_packet(self) -> (packet: Packet)
        ensures
            packet.rmcp_header == RmcpHeader::spec_default(),
            packet.ipmi_header == IpmiHeader::V2_0(
                IpmiV2Header::spec_new(
                    AuthType::RmcpPlus,
                    false,
                    false,
                    PayloadType::Ipmi,
                    0,
                    0,
                    9,
                ),
            ),
            packet.payload matches Payload::IpmiReq(r) && r@ == ReqPayloadView::new(
                NetFn::App,
                CommandCode::GetChannelAuthCapabilities,
                self.spec_bytes(),
            ),
    {
        let data_bytes = self.to_vec();
        Packet::new(
            RmcpHeader::default(),
            IpmiHeader::V2_0(IpmiV2Header::new_pre(PayloadType::Ipmi, 9)),
            Payload::IpmiReq(
                ReqPayload::new(NetFn::App, CommandCode::GetChannelAuthCapabilities, data_bytes),
            ),
        )
    }
}

/// What a BMC answers: the authentication types, the login kinds and the
/// protocol versions that a channel supports.
#[derive(Clone, Debug, PartialEq, Eq)]
pub struct GetChannelAuthCapabilitiesResponse {
    pub channel_number: u8,
    pub auth_version: AuthVersion,
    pub auth_type: Vec<AuthType>,
    pub kg_status: KG,
    pub per_message_auth: bool,
    pub user_level_auth: bool,
    pub anon_login: AnonLogin,
    /// Whether the channel supports IPMI v2.0 sessions.
    pub channel_extended_cap: AuthVersion,
    /// The OEM identifier, held in the upper three bytes.
    pub oem_id: u32,
    pub oem_aux_data: u8,
}

/// The capabilities response as a mathematical value.
pub struct GetChannelAuthCapabilitiesResponseView {
    pub channel_number: u8,
    pub auth_version: AuthVersion,
    pub auth_type: Seq<AuthType>,
    pub kg_status: KG,
    pub per_message_auth: bool,
    pub user_level_auth: bool,
    pub anon_login: AnonLogin,
    pub channel_extended_cap: AuthVersion,
    pub oem_id: u32,
    pub oem_aux_data: u8,
}

impl View for GetChannelAuthCapabilitiesResponse {
    type V = GetChannelAuthCapabilitiesResponseView;

    open spec fn view(&self) -> GetChannelAuthCapabilitiesResponseView {
        GetChannelAuthCapabilitiesResponseView {
            channel_number: self.channel_number,
            auth_version: self.auth_version,
            auth_type: self.auth_type@,
            kg_status: self.kg_status,
            per_message_auth: self.per_message_auth,
            user_level_auth: self.user_level_auth,
            anon_login: self.anon_login,
            channel_extended_cap: self.channel_extended_cap,
            oem_id: self.oem_id,
            oem_aux_data: self.oem_aux_data,
        }
    }
}

/// The one-element list of `auth_type` where `present`, else the empty list.
pub open spec fn listed(present: bool, auth_type: AuthType) -> Seq<AuthType> {
    if present {
        seq![auth_type]
    } else {
        Seq::<AuthType>::empty()
    }
}

/// The authentication types that the support byte `byte` lists, from OEM
/// down to none.
pub open spec fn auth_types_of(byte: u8) -> Seq<AuthType> {
    listed(ms_bit(byte, 2), AuthType::Oem) + listed(ms_bit(byte, 3), AuthType::PasswordOrKey)
        + listed(ms_bit(byte, 5), AuthType::MD5) + listed(ms_bit(byte, 6), AuthType::MD2) + listed(
        ms_bit(byte, 7),
        AuthType::NoAuth,
    )
}

impl GetChannelAuthCapabilitiesResponseView {
    /// The response that `bytes` hold, or why they hold none.
    pub open spec fn spec_parse(bytes: Seq<u8>) -> Result<
        GetChannelAuthCapabilitiesResponseView,
        Error,
    > {
        if bytes.len() != 8 {
            Err(Error::Packet(EPacket::IpmiPayload(EIpmiPayload::WrongLength)))
        } else {
            Ok(
                GetChannelAuthCapabilitiesResponseView {
                    channel_number: bytes[0],
                    auth_version: AuthVersion::spec_from(ms_bit(bytes[1], 0)),
                    auth_type: auth_types_of(bytes[1]),
                    kg_status: KG::spec_from(ms_bit(bytes[2], 2)),
                    per_message_auth: ms_bit(bytes[2], 3),
                    user_level_auth: !ms_bit(bytes[2], 4),
                    anon_login: AnonLogin {
                        non_null_username: AnonStatus::spec_from(ms_bit(bytes[2], 5)),
                        null_username: AnonStatus::spec_from(ms_bit(bytes[2], 6)),
                        anonymous_login: AnonStatus::spec_from(ms_bit(bytes[2], 7)),
                    },
                    channel_extended_cap: AuthVersion::spec_from(ms_bit(bytes[3], 6)),
                    oem_id: (256 * bytes[4] + 65536 * bytes[5] + 16777216 * bytes[6]) as u32,
                    oem_aux_data: bytes[7],
                },
            )
        }
    }
}

fn push_listed(list: &mut Vec<AuthType>, present: bool, auth_type: AuthType)
    ensures
        final(list)@ == old(list)@ + listed(present, auth_type),
{
    if present {
        list.push(auth_type);
    }
    assert(list@ =~= old(list)@ + listed(present, auth_type));
}

impl GetChannelAuthCapabilitiesResponse {
    /// Parses the eight data bytes of a capabilities response.
    pub fn try_from(value: &[u8]) -> (response: Result<GetChannelAuthCapabilitiesResponse, Error>)
        ensures
            match (response, GetChannelAuthCapabilitiesResponseView::spec_parse(value@)) {
                (Ok(r), Ok(v)) => r@ == v,
                (Err(e), Err(f)) => e == f,
                _ => false,
            },
    {
        if value.len() != 8 {
            return Err(Error::Packet(EPacket::IpmiPayload(EIpmiPayload::WrongLength)));
        }
        let mut auth_type: Vec<AuthType> = Vec::new();
        assert(auth_type@ =~= Seq::<AuthType>::empty());
        push_listed(&mut auth_type, u8_ms_bit(value[1], 2), AuthType::Oem);
        push_listed(&mut auth_type, u8_ms_bit(value[1], 3), AuthType::PasswordOrKey);
        push_listed(&mut auth_type, u8_ms_bit(value[1], 5), AuthType::MD5);
        push_listed(&mut auth_type, u8_ms_bit(value[1], 6), AuthType::MD2);
        push_listed(&mut auth_type, u8_ms_bit(value[1], 7), AuthType::NoAuth);
        assert(auth_type@ =~= auth_types_of(value@[1]));
        Ok(
            GetChannelAuthCapabilitiesResponse {
                channel_number: value[0],
                auth_version: AuthVersion::from(u8_ms_bit(value[1], 0)),
                auth_type,
                kg_status: KG::from(u8_ms_bit(value[2], 2)),
                per_message_auth: u8_ms_bit(value[2], 3),
                user_level_auth: !u8_ms_bit(value[2], 4),
                anon_login: AnonLogin::new(
                    AnonStatus::from(u8_ms_bit(value[2], 5)),
                    AnonStatus::from(u8_ms_bit(value[2], 6)),
                    AnonStatus::from(u8_ms_bit(value[2], 7)),
                ),
                channel_extended_cap: AuthVersion::from(u8_ms_bit(value[3], 6)),
                oem_id: 256 * (value[4] as u32) + 65536 * (value[5] as u32) + 16777216 * (
                value[6] as u32),
                oem_aux_data: value[7],
            },
        )
    }
}

} // verus!
