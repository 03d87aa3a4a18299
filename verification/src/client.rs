//! The RMCP+ session engine.
//!
//! A session starts inactive. It is taken through discovery and the RAKP key
//! exchange one datagram at a time: the caller sends what the session hands
//! out and hands back what the BMC answered. Once RAKP message 4 validates,
//! the inactive session is consumed into an active one, and only an active
//! session protects commands. The transport itself, with its timeouts and
//! sleeps, is the caller's.

use crate::err::{EClient, Error};
use crate::helpers::{
    append_bytes, append_u128_to_vec, append_u32_to_vec, bytes_eq, lemma_le_bytes_injective,
    lemma_le_bytes_len, lemma_pow256_values, u128_le, u32_le,
};
use crate::rmcp::ipmi::commands::app::channel::{
    AuthVersion, GetChannelAuthCapabilitiesRequest, GetChannelAuthCapabilitiesResponse,
    GetChannelAuthCapabilitiesResponseView, Privilege,
};
use crate::rmcp::ipmi::commands::{CloseSessionCMD, CommandCode};
use crate::rmcp::header::RmcpHeader;
use crate::rmcp::ipmi::header::v2::{IpmiV2Header, PayloadType};
use crate::rmcp::ipmi::header::{AuthType, IpmiHeader};
use crate::rmcp::ipmi::payload::request::ReqPayloadView;
use crate::rmcp::ipmi::payload::response::{RespPayload, RespPayloadView};
use crate::rmcp::ipmi::{CompletionCode, IpmiCommand};
use crate::rmcp::packet::{
    spec_open, Opened, Packet, PacketView, Payload, PayloadView, MAX_PROTECTED_PAYLOAD,
};
use crate::rmcp::plus::crypto::{encrypted_len, generate_iv, hash_hmac_sha1, hmac_sha1_of};
use crate::rmcp::plus::open_session::{
    AuthAlgorithm, ConfidentialityAlgorithm, IntegrityAlgorithm, RMCPPlusOpenSession,
    RMCPPlusOpenSessionRequest, RMCPPlusOpenSessionResponse, StatusCode,
};
use crate::rmcp::plus::rakp::{
    privilege, spec_privilege, RAKPMessage1, RAKPMessage1View, RAKPMessage2, RAKPMessage2View,
    RAKPMessage3, RAKPMessage3View, RAKPMessage4, RAKPMessage4View, Rakp, RakpView,
    MAX_USERNAME_LEN,
};
use vstd::prelude::*;

verus! {

/// The session identifier under which the console receives packets.
pub const CONSOLE_SESSION_ID: u32 = 0xa0a2a3a4;

/// The first outbound sequence number of a session.
pub const FIRST_SEQ_NUMBER: u32 = 1;

/// The phase of a session.
#[derive(Clone, Copy, Debug, PartialEq, Eq, Structural)]
pub enum State {
    /// The capabilities of the BMC are being discovered.
    Discovery,
    /// The session is being opened and the keys exchanged.
    Authenticating,
    /// RAKP message 4 validated: the session keys are confirmed.
    Established,
}

/// What an inactive session does next.
#[derive(Clone, Copy, Debug, PartialEq, Eq, Structural)]
pub enum Step {
    /// Nothing was sent yet.
    Start,
    /// The capabilities response is awaited.
    Capabilities,
    /// The open-session response is awaited.
    OpenSession,
    /// RAKP message 2 is awaited.
    Rakp2,
    /// RAKP message 4 is awaited.
    Rakp4,
    /// The key exchange is complete.
    Done,
}

/// The phase that a step belongs to.
pub open spec fn phase_of(step: Step) -> State {
    match step {
        Step::Start => State::Discovery,
        Step::Capabilities => State::Discovery,
        Step::Done => State::Established,
        _ => State::Authenticating,
    }
}

/// The input of the session integrity key: both random numbers, the role
/// byte, and the user name behind its length.
pub open spec fn spec_sik_input(
    console_nonce: u128,
    managed_nonce: u128,
    role: u8,
    username: Seq<u8>,
) -> Seq<u8> {
    u128_le(console_nonce) + u128_le(managed_nonce) + seq![role, username.len() as u8] + username
}

/// What the authentication code of RAKP message 2 covers.
pub open spec fn spec_rakp2_input(
    console_id: u32,
    managed_id: u32,
    console_nonce: u128,
    managed_nonce: u128,
    managed_guid: u128,
    role: u8,
    username: Seq<u8>,
) -> Seq<u8> {
    u32_le(console_id) + u32_le(managed_id) + u128_le(console_nonce) + u128_le(managed_nonce)
        + u128_le(managed_guid) + seq![role, username.len() as u8] + username
}

/// What the authentication code of RAKP message 3 covers.
pub open spec fn spec_rakp3_input(
    managed_nonce: u128,
    console_id: u32,
    role: u8,
    username: Seq<u8>,
) -> Seq<u8> {
    u128_le(managed_nonce) + u32_le(console_id) + seq![role, username.len() as u8] + username
}

/// What the integrity check value of RAKP message 4 covers.
pub open spec fn spec_rakp4_input(console_nonce: u128, managed_id: u32, managed_guid: u128) -> Seq<
    u8,
> {
    u128_le(console_nonce) + u32_le(managed_id) + u128_le(managed_guid)
}

/// Twenty bytes of value `byte`: the constants from which K1 and K2 derive.
pub open spec fn repeated20(byte: u8) -> Seq<u8> {
    Seq::new(20, |i: int| byte)
}

/// Builds the input of the session integrity key.
pub fn sik_input(console_nonce: u128, managed_nonce: u128, role: u8, username: &[u8]) -> (input:
    Vec<u8>)
    requires
        username@.len() <= 255,
    ensures
        input@ == spec_sik_input(console_nonce, managed_nonce, role, username@),
{
    let mut buf: Vec<u8> = Vec::new();
    append_u128_to_vec(&mut buf, console_nonce);
    append_u128_to_vec(&mut buf, managed_nonce);
    buf.push(role);
    buf.push(username.len() as u8);
    append_bytes(&mut buf, username);
    assert(buf@ =~= spec_sik_input(console_nonce, managed_nonce, role, username@));
    buf
}

/// Builds what the authentication code of RAKP message 2 covers.
pub fn rakp2_input(
    console_id: u32,
    managed_id: u32,
    console_nonce: u128,
    managed_nonce: u128,
    managed_guid: u128,
    role: u8,
    username: &[u8],
) -> (input: Vec<u8>)
    requires
        username@.len() <= 255,
    ensures
        input@ == spec_rakp2_input(
            console_id,
            managed_id,
            console_nonce,
            managed_nonce,
            managed_guid,
            role,
            username@,
        ),
{
    let mut buf: Vec<u8> = Vec::new();
    append_u32_to_vec(&mut buf, console_id);
    append_u32_to_vec(&mut buf, managed_id);
    append_u128_to_vec(&mut buf, console_nonce);
    append_u128_to_vec(&mut buf, managed_nonce);
    append_u128_to_vec(&mut buf, managed_guid);
    buf.push(role);
    buf.push(username.len() as u8);
    append_bytes(&mut buf, username);
    assert(buf@ =~= spec_rakp2_input(
        console_id,
        managed_id,
        console_nonce,
        managed_nonce,
        managed_guid,
        role,
        username@,
    ));
    buf
}

/// Builds what the authentication code of RAKP message 3 covers.
pub fn rakp3_input(managed_nonce: u128, console_id: u32, role: u8, username: &[u8]) -> (input: Vec<
    u8,
>)
    requires
        username@.len() <= 255,
    ensures
        input@ == spec_rakp3_input(managed_nonce, console_id, role, username@),
{
    let mut buf: Vec<u8> = Vec::new();
    append_u128_to_vec(&mut buf, managed_nonce);
    append_u32_to_vec(&mut buf, console_id);
    buf.push(role);
    buf.push(username.len() as u8);
    append_bytes(&mut buf, username);
    assert(buf@ =~= spec_rakp3_input(managed_nonce, console_id, role, username@));
    buf
}

/// Builds what the integrity check value of RAKP message 4 covers.
pub fn rakp4_input(console_nonce: u128, managed_id: u32, managed_guid: u128) -> (input: Vec<u8>)
    ensures
        input@ == spec_rakp4_input(console_nonce, managed_id, managed_guid),
{
    let mut buf: Vec<u8> = Vec::new();
    append_u128_to_vec(&mut buf, console_nonce);
    append_u32_to_vec(&mut buf, managed_id);
    append_u128_to_vec(&mut buf, managed_guid);
    buf
}

/// The three keys of a session.
#[derive(Clone, Copy, Debug, PartialEq, Eq)]
pub struct SessionKeys {
    /// The session integrity key.
    pub sik: [u8; 20],
    /// The integrity key, which authenticates every packet.
    pub k1: [u8; 20],
    /// The confidentiality key, whose first sixteen bytes are the AES key.
    pub k2: [u8; 20],
}

/// Derives the keys of a session: the session integrity key is the
/// HMAC-SHA1, under the password, of both random numbers, the role byte and
/// the user name; K1 and K2 are the HMAC-SHA1, under that key, of twenty
/// bytes 0x01 and of twenty bytes 0x02.
pub fn derive_session_keys(
    password: &[u8],
    console_nonce: u128,
    managed_nonce: u128,
    role: u8,
    username: &[u8],
) -> (keys: SessionKeys)
    requires
        username@.len() <= 255,
    ensures
        keys.sik@ == hmac_sha1_of(
            password@,
            spec_sik_input(console_nonce, managed_nonce, role, username@),
        ),
        keys.k1@ == hmac_sha1_of(keys.sik@, repeated20(1)),
        keys.k2@ == hmac_sha1_of(keys.sik@, repeated20(2)),
{
    let input = sik_input(console_nonce, managed_nonce, role, username);
    let sik = hash_hmac_sha1(password, input.as_slice());
    let ones = [1u8; 20];
    let twos = [2u8; 20];
    assert(ones@ =~= repeated20(1));
    assert(twos@ =~= repeated20(2));
    let k1 = hash_hmac_sha1(&sik, &ones);
    let k2 = hash_hmac_sha1(&sik, &twos);
    SessionKeys { sik, k1, k2 }
}

/// The input of the session integrity key determines both random numbers
/// and the role byte: sessions that differ in any of them hash different
/// inputs.
pub proof fn lemma_sik_input_injective(
    console_a: u128,
    managed_a: u128,
    role_a: u8,
    console_b: u128,
    managed_b: u128,
    role_b: u8,
    username_a: Seq<u8>,
    username_b: Seq<u8>,
)
    requires
        spec_sik_input(console_a, managed_a, role_a, username_a) == spec_sik_input(
            console_b,
            managed_b,
            role_b,
            username_b,
        ),
    ensures
        console_a == console_b,
        managed_a == managed_b,
        role_a == role_b,
{
    let a = spec_sik_input(console_a, managed_a, role_a, username_a);
    let b = spec_sik_input(console_b, managed_b, role_b, username_b);
    lemma_pow256_values();
    lemma_le_bytes_len(console_a as nat, 16);
    lemma_le_bytes_len(managed_a as nat, 16);
    lemma_le_bytes_len(console_b as nat, 16);
    lemma_le_bytes_len(managed_b as nat, 16);
    assert(a.subrange(0, 16) =~= u128_le(console_a));
    assert(b.subrange(0, 16) =~= u128_le(console_b));
    assert(a.subrange(16, 32) =~= u128_le(managed_a));
    assert(b.subrange(16, 32) =~= u128_le(managed_b));
    assert(a[32] == role_a);
    assert(b[32] == role_b);
    lemma_le_bytes_injective(console_a as nat, console_b as nat, 16);
    lemma_le_bytes_injective(managed_a as nat, managed_b as nat, 16);
}

/// Whether the authentication code that came with RAKP message 2 is the one
/// the console computed. A missing code is no match.
pub fn rakp2_code_valid(received: &Option<[u8; 20]>, expected: &[u8; 20]) -> (valid: bool)
    ensures
        valid == (*received matches Some(code) && code@ == expected@),
{
    match received {
        Some(code) => bytes_eq(code.as_slice(), expected.as_slice()),
        None => false,
    }
}

/// Whether the integrity check value that came with RAKP message 4 is the
/// first twelve bytes of the tag the console computed. A missing value is no
/// match.
pub fn rakp4_code_valid(received: &Option<[u8; 12]>, tag: &[u8; 20]) -> (valid: bool)
    ensures
        valid == (*received matches Some(code) && code@ == tag@.subrange(0, 12)),
{
    match received {
        Some(code) => bytes_eq(
            code.as_slice(),
            vstd::slice::slice_subrange(tag.as_slice(), 0, 12),
        ),
        None => false,
    }
}

/// A session before its keys are confirmed.
#[derive(Debug)]
pub struct SessionInactived {
    step: Step,
    seq_number: u32,
    managed_id: Option<u32>,
    managed_system_random_number: Option<u128>,
    managed_system_guid: Option<u128>,
    remote_console_session_id: u32,
    remote_console_random_number: u128,
    username: Vec<u8>,
    password_mac_key: Vec<u8>,
    requested_privilege: Privilege,
    nameonly_lookup: bool,
    capabilities: Option<GetChannelAuthCapabilitiesResponse>,
    sik: Option<[u8; 20]>,
    k1: Option<[u8; 20]>,
    k2: Option<[u8; 20]>,
}

/// An inactive session as a mathematical value.
pub struct SessionInactivedView {
    pub state: State,
    pub step: Step,
    pub seq_number: u32,
    pub managed_id: Option<u32>,
    pub managed_system_random_number: Option<u128>,
    pub managed_system_guid: Option<u128>,
    pub remote_console_session_id: u32,
    pub remote_console_random_number: u128,
    pub username: Seq<u8>,
    pub password_mac_key: Seq<u8>,
    pub requested_privilege: Privilege,
    pub nameonly_lookup: bool,
    pub capabilities: Option<GetChannelAuthCapabilitiesResponseView>,
    pub sik: Option<Seq<u8>>,
    pub k1: Option<Seq<u8>>,
    pub k2: Option<Seq<u8>>,
}

/// The byte string of a key, if the key is set.
pub open spec fn key_view(key: Option<[u8; 20]>) -> Option<Seq<u8>> {
    match key {
        Some(k) => Some(k@),
        None => None,
    }
}

impl View for SessionInactived {
    type V = SessionInactivedView;

    closed spec fn view(&self) -> SessionInactivedView {
        SessionInactivedView {
            state: phase_of(self.step),
            step: self.step,
            seq_number: self.seq_number,
            managed_id: self.managed_id,
            managed_system_random_number: self.managed_system_random_number,
            managed_system_guid: self.managed_system_guid,
            remote_console_session_id: self.remote_console_session_id,
            remote_console_random_number: self.remote_console_random_number,
            username: self.username@,
            password_mac_key: self.password_mac_key@,
            requested_privilege: self.requested_privilege,
            nameonly_lookup: self.nameonly_lookup,
            capabilities: match self.capabilities {
                Some(c) => Some(c@),
                None => None,
            },
            sik: key_view(self.sik),
            k1: key_view(self.k1),
            k2: key_view(self.k2),
        }
    }
}

impl SessionInactivedView {
    /// What holds of every inactive session: the user name fits the
    /// protocol; the keys and the identifiers they derive from are set as
    /// far as the key exchange has come; and the phase follows the step.
    pub open spec fn wf(&self) -> bool {
        &&& self.username.len() <= MAX_USERNAME_LEN
        &&& self.state == phase_of(self.step)
        &&& (self.step == Step::Rakp2 || self.step == Step::Rakp4 || self.step == Step::Done)
            ==> self.managed_id is Some
        &&& (self.step == Step::Rakp4 || self.step == Step::Done) ==> {
            &&& self.managed_system_random_number is Some
            &&& self.managed_system_guid is Some
            &&& self.sik is Some
            &&& self.k1 is Some
            &&& self.k2 is Some
        }
    }

    /// The session of a user before anything was sent: it asks for the
    /// administrator role and has the BMC look the user up by name and
    /// privilege.
    pub open spec fn initial(username: Seq<u8>, password: Seq<u8>, console_nonce: u128)
        -> SessionInactivedView {
        SessionInactivedView {
            state: State::Discovery,
            step: Step::Start,
            seq_number: FIRST_SEQ_NUMBER,
            managed_id: None,
            managed_system_random_number: None,
            managed_system_guid: None,
            remote_console_session_id: CONSOLE_SESSION_ID,
            remote_console_random_number: console_nonce,
            username,
            password_mac_key: password,
            requested_privilege: Privilege::Administrator,
            nameonly_lookup: false,
            capabilities: None,
            sik: None,
            k1: None,
            k2: None,
        }
    }

    /// The role byte, the same in RAKP message 1, in the authentication code
    /// of RAKP message 2 and in the session integrity key.
    pub open spec fn role(&self) -> u8 {
        spec_privilege(self.nameonly_lookup, self.requested_privilege)
    }

    /// The request that starts discovery: the extended capabilities of the
    /// channel the request arrives on, for the administrator level.
    pub open spec fn capabilities_request() -> PayloadView {
        PayloadView::IpmiReq(
            ReqPayloadView::new(
                crate::rmcp::ipmi::payload::netfn::NetFn::App,
                CommandCode::GetChannelAuthCapabilities,
                seq![0x8eu8, 0x04u8],
            ),
        )
    }

    /// The session once discovery was started.
    pub open spec fn started(self) -> Result<SessionInactivedView, Error> {
        if self.step != Step::Start {
            Err(Error::Client(EClient::SessionNotEstablishedYet))
        } else {
            Ok(SessionInactivedView { step: Step::Capabilities, ..self })
        }
    }

    /// The session once the capabilities response arrived: the response
    /// must have completed normally, parse, and offer IPMI v2.0.
    pub open spec fn with_capabilities(self, response: RespPayloadView) -> Result<
        SessionInactivedView,
        Error,
    > {
        if self.step != Step::Capabilities {
            Err(Error::Client(EClient::SessionNotEstablishedYet))
        } else if response.completion_code != CompletionCode::CompletedNormally {
            Err(
                Error::Client(
                    EClient::CompletionCode(
                        CommandCode::GetChannelAuthCapabilities,
                        response.completion_code,
                    ),
                ),
            )
        } else {
            match GetChannelAuthCapabilitiesResponseView::spec_parse(response.data) {
                Err(e) => Err(e),
                Ok(capabilities) => if capabilities.channel_extended_cap != AuthVersion::IpmiV2 {
                    Err(Error::Client(EClient::UnsupportedVersion))
                } else {
                    Ok(
                        SessionInactivedView {
                            state: State::Authenticating,
                            step: Step::OpenSession,
                            capabilities: Some(capabilities),
                            ..self
                        },
                    )
                },
            }
        }
    }

    /// The open-session request: the console's session identifier, the
    /// requested role and cipher suite 3 (HMAC-SHA1, HMAC-SHA1-96,
    /// AES-CBC-128).
    pub open spec fn open_session_request(&self) -> RMCPPlusOpenSessionRequest {
        RMCPPlusOpenSessionRequest {
            message_tag: 0,
            max_privilege: self.requested_privilege,
            remote_console_session_id: self.remote_console_session_id,
            authentication_algorithm: AuthAlgorithm::RakpHmacSha1,
            integrity_algorithm: IntegrityAlgorithm::HmacSha196,
            confidentiality_algorithm: ConfidentialityAlgorithm::AesCbc128,
        }
    }

    /// The session once the open-session response arrived: the status must
    /// be "no errors"; the BMC's session identifier is stored.
    pub open spec fn with_open_session(self, response: RMCPPlusOpenSessionResponse) -> Result<
        SessionInactivedView,
        Error,
    > {
        if self.step != Step::OpenSession {
            Err(Error::Client(EClient::SessionNotEstablishedYet))
        } else if response.rmcp_plus_status_code != StatusCode::NoErrors {
            Err(Error::Client(EClient::FailedToOpenSession(response.rmcp_plus_status_code)))
        } else {
            Ok(
                SessionInactivedView {
                    step: Step::Rakp2,
                    managed_id: Some(response.managed_system_session_id),
                    ..self
                },
            )
        }
    }

    /// RAKP message 1 of this session.
    pub open spec fn rakp1(&self) -> RAKPMessage1View {
        RAKPMessage1View {
            message_tag: 0,
            managed_id: self.managed_id.unwrap(),
            console_rnd_number: self.remote_console_random_number,
            privilege_level: self.requested_privilege,
            nameonly_lookup: self.nameonly_lookup,
            username_length: self.username.len() as u8,
            username: self.username,
        }
    }

    /// The authentication code that RAKP message 2 must carry.
    pub open spec fn rakp2_code(&self, message: RAKPMessage2View) -> Seq<u8> {
        hmac_sha1_of(
            self.password_mac_key,
            spec_rakp2_input(
                self.remote_console_session_id,
                self.managed_id.unwrap(),
                self.remote_console_random_number,
                message.managed_rnd_number,
                message.managed_guid,
                self.role(),
                self.username,
            ),
        )
    }

    /// The session once RAKP message 2 arrived: the status must be "no
    /// errors" and the authentication code must be the one the password
    /// gives; the BMC's random number and GUID are stored and the session
    /// keys derived.
    pub open spec fn with_rakp2(self, message: RAKPMessage2View) -> Result<
        SessionInactivedView,
        Error,
    > {
        if self.step != Step::Rakp2 {
            Err(Error::Client(EClient::SessionNotEstablishedYet))
        } else if message.status_code != StatusCode::NoErrors {
            Err(Error::Client(EClient::FailedToOpenSession(message.status_code)))
        } else if message.key_exchange_auth_code != Some(self.rakp2_code(message)) {
            Err(Error::Client(EClient::FailedToValidateRAKP2))
        } else {
            let sik = hmac_sha1_of(
                self.password_mac_key,
                spec_sik_input(
                    self.remote_console_random_number,
                    message.managed_rnd_number,
                    self.role(),
                    self.username,
                ),
            );
            Ok(
                SessionInactivedView {
                    step: Step::Rakp4,
                    managed_system_random_number: Some(message.managed_rnd_number),
                    managed_system_guid: Some(message.managed_guid),
                    sik: Some(sik),
                    k1: Some(hmac_sha1_of(sik, repeated20(1))),
                    k2: Some(hmac_sha1_of(sik, repeated20(2))),
                    ..self
                },
            )
        }
    }

    /// RAKP message 3 of this session: its authentication code is the
    /// HMAC-SHA1, under the password, of the BMC's random number, the
    /// console's session identifier, the role byte and the user name.
    pub open spec fn rakp3(&self) -> RAKPMessage3View {
        RAKPMessage3View {
            message_tag: 0,
            status_code: StatusCode::NoErrors,
            managed_id: self.managed_id.unwrap(),
            key_exchange_auth_code: Some(
                hmac_sha1_of(
                    self.password_mac_key,
                    spec_rakp3_input(
                        self.managed_system_random_number.unwrap(),
                        self.remote_console_session_id,
                        self.role(),
                        self.username,
                    ),
                ),
            ),
        }
    }

    /// The integrity check value that RAKP message 4 must carry: the first
    /// twelve bytes of the HMAC-SHA1, under the session integrity key, of
    /// the console's random number, the BMC's session identifier and the
    /// BMC's GUID.
    pub open spec fn rakp4_code(&self) -> Seq<u8> {
        hmac_sha1_of(
            self.sik.unwrap(),
            spec_rakp4_input(
                self.remote_console_random_number,
                self.managed_id.unwrap(),
                self.managed_system_guid.unwrap(),
            ),
        ).subrange(0, 12)
    }

    /// The session once RAKP message 4 arrived: the status must be "no
    /// errors" and the integrity check value must be the one the session
    /// integrity key gives.
    pub open spec fn with_rakp4(self, message: RAKPMessage4View) -> Result<
        SessionInactivedView,
        Error,
    > {
        if self.step != Step::Rakp4 {
            Err(Error::Client(EClient::SessionNotEstablishedYet))
        } else if message.status_code != StatusCode::NoErrors {
            Err(Error::Client(EClient::FailedToOpenSession(message.status_code)))
        } else if message.integrity_auth_code != Some(self.rakp4_code()) {
            Err(Error::Client(EClient::MismatchedKeyExchangeAuthCode))
        } else {
            Ok(SessionInactivedView { state: State::Established, step: Step::Done, ..self })
        }
    }

    /// What a received packet does to the session, and what is sent next:
    /// the payload must be of the type the step awaits. A packet without
    /// payload where RAKP message 2 is awaited is a BMC's way of refusing the
    /// password.
    pub open spec fn stepped(self, packet: PacketView) -> Result<
        (SessionInactivedView, Option<PayloadView>),
        Error,
    > {
        match (self.step, packet.payload) {
            (Step::Capabilities, PayloadView::IpmiResp(response)) => match self.with_capabilities(
                response,
            ) {
                Err(e) => Err(e),
                Ok(next) => Ok(
                    (
                        next,
                        Some(
                            PayloadView::Rmcp(
                                RMCPPlusOpenSession::Request(next.open_session_request()),
                            ),
                        ),
                    ),
                ),
            },
            (
                Step::OpenSession,
                PayloadView::Rmcp(RMCPPlusOpenSession::Response(response)),
            ) => match self.with_open_session(response) {
                Err(e) => Err(e),
                Ok(next) => Ok((next, Some(PayloadView::Rakp(RakpView::Message1(next.rakp1()))))),
            },
            (Step::Rakp2, PayloadView::Rakp(RakpView::Message2(message))) => match self.with_rakp2(
                message,
            ) {
                Err(e) => Err(e),
                Ok(next) => Ok((next, Some(PayloadView::Rakp(RakpView::Message3(next.rakp3()))))),
            },
            (Step::Rakp2, PayloadView::Empty) => Err(
                Error::Client(EClient::FailedToValidateRAKP2),
            ),
            (Step::Rakp4, PayloadView::Rakp(RakpView::Message4(message))) => match self.with_rakp4(
                message,
            ) {
                Err(e) => Err(e),
                Ok(next) => Ok((next, None)),
            },
            (Step::Start, _) => Err(Error::Client(EClient::SessionNotEstablishedYet)),
            (Step::Done, _) => Err(Error::Client(EClient::SessionNotEstablishedYet)),
            _ => Err(Error::Client(EClient::MisformedResponse)),
        }
    }
}

/// A session is well-formed before anything is sent, and every step of
/// the key exchange keeps it so. So a session that has reached the
/// established phase holds the BMC's session identifier and both keys: no
/// packet is protected before they are set.
pub proof fn lemma_session_stays_well_formed(session: SessionInactivedView, packet: PacketView)
    requires
        session.wf(),
    ensures
        session.started() matches Ok(next) ==> next.wf(),
        session.stepped(packet) matches Ok((next, _)) ==> next.wf(),
        session.state == State::Established ==> session.managed_id is Some && session.k1 is Some
            && session.k2 is Some,
{
}

/// The session of a user whose name fits the protocol is well-formed.
pub proof fn lemma_initial_session_well_formed(
    username: Seq<u8>,
    password: Seq<u8>,
    console_nonce: u128,
)
    requires
        username.len() <= MAX_USERNAME_LEN,
    ensures
        SessionInactivedView::initial(username, password, console_nonce).wf(),
{
}

impl SessionInactived {
    #[verifier::type_invariant]
    spec fn inv(&self) -> bool {
        self@.wf()
    }

    /// A session for the user with the given name and password, in UTF-8
    /// bytes, and the console's random number, which must come from a
    /// cryptographic generator. A name of more than sixteen bytes is
    /// rejected.
    pub fn with_credentials(username: &[u8], password: &[u8], console_nonce: u128) -> (session:
        Result<SessionInactived, Error>)
        ensures
            username@.len() > MAX_USERNAME_LEN ==> session == Err::<SessionInactived, Error>(
                Error::Client(EClient::UsernameTooLong),
            ),
            username@.len() <= MAX_USERNAME_LEN ==> (session matches Ok(s) && s@
                == SessionInactivedView::initial(username@, password@, console_nonce)),
    {
        if username.len() > MAX_USERNAME_LEN {
            return Err(Error::Client(EClient::UsernameTooLong));
        }
        let mut name: Vec<u8> = Vec::new();
        append_bytes(&mut name, username);
        let mut key: Vec<u8> = Vec::new();
        append_bytes(&mut key, password);
        assert(name@ =~= username@);
        assert(key@ =~= password@);
        Ok(
            SessionInactived {
                step: Step::Start,
                seq_number: FIRST_SEQ_NUMBER,
                managed_id: None,
                managed_system_random_number: None,
                managed_system_guid: None,
                remote_console_session_id: CONSOLE_SESSION_ID,
                remote_console_random_number: console_nonce,
                username: name,
                password_mac_key: key,
                requested_privilege: Privilege::Administrator,
                nameonly_lookup: false,
                capabilities: None,
                sik: None,
                k1: None,
                k2: None,
            },
        )
    }

    /// A session for the user with the given name and password. The password
    /// is the HMAC key as it stands.
    pub fn new(username: &str, password: &str, console_nonce: u128) -> (session: Result<
        SessionInactived,
        Error,
    >)
        ensures
            vstd::utf8::encode_utf8(username@).len() > MAX_USERNAME_LEN ==> session == Err::<
                SessionInactived,
                Error,
            >(Error::Client(EClient::UsernameTooLong)),
            vstd::utf8::encode_utf8(username@).len() <= MAX_USERNAME_LEN ==> (session matches Ok(s)
                && s@ == SessionInactivedView::initial(
                vstd::utf8::encode_utf8(username@),
                vstd::utf8::encode_utf8(password@),
                console_nonce,
            )),
    {
        SessionInactived::with_credentials(username.as_bytes(), password.as_bytes(), console_nonce)
    }

    /// The phase of the session.
    pub fn state(&self) -> (state: State)
        ensures
            state == self@.state,
    {
        match self.step {
            Step::Start => State::Discovery,
            Step::Capabilities => State::Discovery,
            Step::Done => State::Established,
            _ => State::Authenticating,
        }
    }

    /// What the session does next.
    pub fn step(&self) -> (step: Step)
        ensures
            step == self@.step,
    {
        self.step
    }

    /// Starts discovery: the packet to send asks for the authentication
    /// capabilities of the channel.
    pub fn start(&mut self) -> (packet: Result<Packet, Error>)
        ensures
            match (packet, old(self)@.started()) {
                (Ok(p), Ok(next)) => {
                    &&& final(self)@ == next
                    &&& p@ == SessionInactivedView::capabilities_request().unprotected()
                    &&& p@.writable()
                },
                (Err(e), Err(f)) => e == f && final(self)@ == old(self)@,
                _ => false,
            },
    {
        proof {
            use_type_invariant(&*self);
        }
        match self.step {
            Step::Start => {},
            _ => {
                return Err(Error::Client(EClient::SessionNotEstablishedYet));
            },
        }
        self.step = Step::Capabilities;
        let request = GetChannelAuthCapabilitiesRequest::new(true, 0xE, Privilege::Administrator);
        let packet = request.create_packet();
        proof {
            assert(request.spec_bytes() =~= seq![0x8eu8, 0x04u8]);
        }
        Ok(packet)
    }

    /// Takes the capabilities response; the packet to send next is the
    /// open-session request.
    pub fn handle_capabilities(&mut self, response: &RespPayload) -> (packet: Result<Packet, Error>)
        ensures
            match (packet, old(self)@.with_capabilities(response@)) {
                (Ok(p), Ok(next)) => {
                    &&& final(self)@ == next
                    &&& p@ == PayloadView::Rmcp(
                        RMCPPlusOpenSession::Request(next.open_session_request()),
                    ).unprotected()
                    &&& p@.writable()
                },
                (Err(e), Err(f)) => e == f && final(self)@ == old(self)@,
                _ => false,
            },
    {
        proof {
            use_type_invariant(&*self);
        }
        match self.step {
            Step::Capabilities => {},
            _ => {
                return Err(Error::Client(EClient::SessionNotEstablishedYet));
            },
        }
        match response.completion_code {
            CompletionCode::CompletedNormally => {},
            code => {
                return Err(
                    Error::Client(
                        EClient::CompletionCode(CommandCode::GetChannelAuthCapabilities, code),
                    ),
                );
            },
        }
        let capabilities = match GetChannelAuthCapabilitiesResponse::try_from(
            response.data.as_slice(),
        ) {
            Err(e) => {
                return Err(e);
            },
            Ok(c) => c,
        };
        match capabilities.channel_extended_cap {
            AuthVersion::IpmiV2 => {},
            AuthVersion::IpmiV1_5 => {
                return Err(Error::Client(EClient::UnsupportedVersion));
            },
        }
        self.capabilities = Some(capabilities);
        self.step = Step::OpenSession;
        let request = RMCPPlusOpenSessionRequest::new(
            0,
            self.requested_privilege,
            self.remote_console_session_id,
            AuthAlgorithm::RakpHmacSha1,
            IntegrityAlgorithm::HmacSha196,
            ConfidentialityAlgorithm::AesCbc128,
        );
        proof {
            request.lemma_bytes_len();
        }
        Ok(request.to_packet())
    }

    /// Takes the open-session response; the packet to send next is RAKP
    /// message 1.
    pub fn handle_open_session(&mut self, response: &RMCPPlusOpenSessionResponse) -> (packet:
        Result<Packet, Error>)
        ensures
            match (packet, old(self)@.with_open_session(*response)) {
                (Ok(p), Ok(next)) => {
                    &&& final(self)@ == next
                    &&& p@ == PayloadView::Rakp(RakpView::Message1(next.rakp1())).unprotected()
                    &&& p@.writable()
                },
                (Err(e), Err(f)) => e == f && final(self)@ == old(self)@,
                _ => false,
            },
    {
        proof {
            use_type_invariant(&*self);
        }
        match self.step {
            Step::OpenSession => {},
            _ => {
                return Err(Error::Client(EClient::SessionNotEstablishedYet));
            },
        }
        match response.rmcp_plus_status_code {
            StatusCode::NoErrors => {},
            status => {
                return Err(Error::Client(EClient::FailedToOpenSession(status)));
            },
        }
        let message = match RAKPMessage1::with_name(
            0,
            response.managed_system_session_id,
            self.remote_console_random_number,
            self.nameonly_lookup,
            self.requested_privilege,
            self.username.as_slice(),
        ) {
            Err(e) => {
                assert(false);
                return Err(e);
            },
            Ok(m) => m,
        };
        self.managed_id = Some(response.managed_system_session_id);
        self.step = Step::Rakp2;
        proof {
            message@.lemma_bytes_len();
        }
        Ok(message.to_packet())
    }

    /// Takes RAKP message 2; the packet to send next is RAKP message 3.
    pub fn handle_rakp2(&mut self, message: &RAKPMessage2) -> (packet: Result<Packet, Error>)
        ensures
            match (packet, old(self)@.with_rakp2(message@)) {
                (Ok(p), Ok(next)) => {
                    &&& final(self)@ == next
                    &&& p@ == PayloadView::Rakp(RakpView::Message3(next.rakp3())).unprotected()
                    &&& p@.writable()
                },
                (Err(e), Err(f)) => e == f && final(self)@ == old(self)@,
                _ => false,
            },
    {
        proof {
            use_type_invariant(&*self);
        }
        match self.step {
            Step::Rakp2 => {},
            _ => {
                return Err(Error::Client(EClient::SessionNotEstablishedYet));
            },
        }
        match message.status_code {
            StatusCode::NoErrors => {},
            status => {
                return Err(Error::Client(EClient::FailedToOpenSession(status)));
            },
        }
        let managed_id = match self.managed_id {
            Some(id) => id,
            None => {
                assert(false);
                return Err(Error::Client(EClient::SessionNotEstablishedYet));
            },
        };
        let role = privilege(self.nameonly_lookup, self.requested_privilege);
        let covered = rakp2_input(
            self.remote_console_session_id,
            managed_id,
            self.remote_console_random_number,
            message.managed_rnd_number,
            message.managed_guid,
            role,
            self.username.as_slice(),
        );
        let expected = hash_hmac_sha1(self.password_mac_key.as_slice(), covered.as_slice());
        if !rakp2_code_valid(&message.key_exchange_auth_code, &expected) {
            return Err(Error::Client(EClient::FailedToValidateRAKP2));
        }
        let keys = derive_session_keys(
            self.password_mac_key.as_slice(),
            self.remote_console_random_number,
            message.managed_rnd_number,
            role,
            self.username.as_slice(),
        );
        let proof_input = rakp3_input(
            message.managed_rnd_number,
            self.remote_console_session_id,
            role,
            self.username.as_slice(),
        );
        let code = hash_hmac_sha1(self.password_mac_key.as_slice(), proof_input.as_slice());
        let mut code_vec: Vec<u8> = Vec::new();
        append_bytes(&mut code_vec, code.as_slice());
        assert(code_vec@ =~= code@);
        self.managed_system_random_number = Some(message.managed_rnd_number);
        self.managed_system_guid = Some(message.managed_guid);
        self.sik = Some(keys.sik);
        self.k1 = Some(keys.k1);
        self.k2 = Some(keys.k2);
        self.step = Step::Rakp4;
        let reply = RAKPMessage3::new(0, StatusCode::NoErrors, managed_id, Some(code_vec));
        proof {
            reply@.lemma_bytes_len();
        }
        Ok(reply.to_packet())
    }

    /// Takes RAKP message 4, which confirms the keys.
    pub fn handle_rakp4(&mut self, message: &RAKPMessage4) -> (done: Result<(), Error>)
        ensures
            match (done, old(self)@.with_rakp4(message@)) {
                (Ok(_), Ok(next)) => final(self)@ == next,
                (Err(e), Err(f)) => e == f && final(self)@ == old(self)@,
                _ => false,
            },
    {
        proof {
            use_type_invariant(&*self);
        }
        match self.step {
            Step::Rakp4 => {},
            _ => {
                return Err(Error::Client(EClient::SessionNotEstablishedYet));
            },
        }
        match message.status_code {
            StatusCode::NoErrors => {},
            status => {
                return Err(Error::Client(EClient::FailedToOpenSession(status)));
            },
        }
        match (self.managed_id, self.managed_system_guid, self.sik) {
            (Some(managed_id), Some(guid), Some(sik)) => {
                let covered = rakp4_input(self.remote_console_random_number, managed_id, guid);
                let tag = hash_hmac_sha1(sik.as_slice(), covered.as_slice());
                if !rakp4_code_valid(&message.integrity_auth_code, &tag) {
                    return Err(Error::Client(EClient::MismatchedKeyExchangeAuthCode));
                }
                self.step = Step::Done;
                Ok(())
            },
            _ => {
                assert(false);
                Err(Error::Client(EClient::SessionNotEstablishedYet))
            },
        }
    }

    /// Takes a received packet and gives the packet to send next, if there
    /// is one; there is none once RAKP message 4 validated.
    pub fn handle_packet(&mut self, packet: &Packet) -> (next: Result<Option<Packet>, Error>)
        ensures
            match (next, old(self)@.stepped(packet@)) {
                (Ok(Some(p)), Ok((session, Some(payload)))) => {
                    &&& final(self)@ == session
                    &&& p@ == payload.unprotected()
                    &&& p@.writable()
                },
                (Ok(None), Ok((session, None))) => final(self)@ == session,
                (Err(e), Err(f)) => e == f && final(self)@ == old(self)@,
                _ => false,
            },
    {
        proof {
            use_type_invariant(&*self);
        }
        match (self.step, &packet.payload) {
            (Step::Capabilities, Payload::IpmiResp(response)) => match self.handle_capabilities(
                response,
            ) {
                Err(e) => Err(e),
                Ok(p) => Ok(Some(p)),
            },
            (Step::OpenSession, Payload::Rmcp(RMCPPlusOpenSession::Response(response))) => match
                self.handle_open_session(response) {
                Err(e) => Err(e),
                Ok(p) => Ok(Some(p)),
            },
            (Step::Rakp2, Payload::Rakp(Rakp::Message2(message))) => match self.handle_rakp2(
                message,
            ) {
                Err(e) => Err(e),
                Ok(p) => Ok(Some(p)),
            },
            (Step::Rakp2, Payload::Empty) => Err(Error::Client(EClient::FailedToValidateRAKP2)),
            (Step::Rakp4, Payload::Rakp(Rakp::Message4(message))) => match self.handle_rakp4(
                message,
            ) {
                Err(e) => Err(e),
                Ok(_) => Ok(None),
            },
            (Step::Start, _) => Err(Error::Client(EClient::SessionNotEstablishedYet)),
            (Step::Done, _) => Err(Error::Client(EClient::SessionNotEstablishedYet)),
            _ => Err(Error::Client(EClient::MisformedResponse)),
        }
    }

    /// Takes a received datagram and gives the datagram to send next, if
    /// there is one. Packets of the key exchange travel in the clear.
    pub fn handle_datagram(&mut self, datagram: &[u8]) -> (next: Result<Option<Vec<u8>>, Error>)
        ensures
            match PacketView::spec_parse(datagram@, None) {
                Err(f) => next == Err::<Option<Vec<u8>>, Error>(f) && final(self)@ == old(self)@,
                Ok(packet) => match (next, old(self)@.stepped(packet)) {
                    (Ok(Some(bytes)), Ok((session, Some(payload)))) => {
                        &&& final(self)@ == session
                        &&& bytes@ == payload.unprotected().spec_bytes()
                    },
                    (Ok(None), Ok((session, None))) => final(self)@ == session,
                    (Err(e), Err(f)) => e == f && final(self)@ == old(self)@,
                    _ => false,
                },
            },
    {
        let packet = match Packet::try_from(datagram) {
            Err(e) => {
                return Err(e);
            },
            Ok(p) => p,
        };
        match self.handle_packet(&packet) {
            Err(e) => Err(e),
            Ok(None) => Ok(None),
            Ok(Some(reply)) => {
                let bytes = reply.to_vec();
                Ok(Some(bytes))
            },
        }
    }

    /// Turns the session into an active one. Only a session whose key
    /// exchange is complete can be activated.
    pub fn activate(self) -> (active: Result<SessionActived, Error>)
        ensures
            self@.state != State::Established ==> active == Err::<SessionActived, Error>(
                Error::Client(EClient::SessionNotEstablishedYet),
            ),
            self@.state == State::Established ==> (active matches Ok(a) && a@ == (
            SessionActivedView {
                seq_number: self@.seq_number,
                managed_id: self@.managed_id.unwrap(),
                k1: self@.k1.unwrap(),
                k2: self@.k2.unwrap(),
            })),
    {
        proof {
            use_type_invariant(&self);
        }
        match (self.step, self.managed_id, self.k1, self.k2) {
            (Step::Done, Some(managed_id), Some(k1), Some(k2)) => Ok(
                SessionActived { seq_number: self.seq_number, managed_id, k1, k2 },
            ),
            _ => Err(Error::Client(EClient::SessionNotEstablishedYet)),
        }
    }
}

/// A session whose keys are confirmed. There is no way to make one but to
/// complete the key exchange.
#[derive(Clone, Debug)]
pub struct SessionActived {
    seq_number: u32,
    managed_id: u32,
    k1: [u8; 20],
    k2: [u8; 20],
}

/// An active session as a mathematical value.
pub struct SessionActivedView {
    /// The sequence number of the next packet.
    pub seq_number: u32,
    /// The session identifier the BMC chose.
    pub managed_id: u32,
    pub k1: Seq<u8>,
    pub k2: Seq<u8>,
}

impl View for SessionActived {
    type V = SessionActivedView;

    closed spec fn view(&self) -> SessionActivedView {
        SessionActivedView {
            seq_number: self.seq_number,
            managed_id: self.managed_id,
            k1: self.k1@,
            k2: self.k2@,
        }
    }
}

impl SessionActivedView {
    /// A packet as the session sends it: with the BMC's session identifier
    /// and the session's sequence number in its v2.0 header.
    pub open spec fn addressed(&self, packet: PacketView) -> PacketView {
        PacketView {
            ipmi_header: match packet.ipmi_header {
                IpmiHeader::V2_0(h) => IpmiHeader::V2_0(
                    IpmiV2Header {
                        rmcp_plus_session_id: self.managed_id,
                        session_seq_number: self.seq_number,
                        ..h
                    },
                ),
                other => other,
            },
            ..packet
        }
    }

    /// The session after one packet was sent: its sequence number is one
    /// higher, wrapping at 2^32.
    pub open spec fn advanced(self) -> SessionActivedView {
        SessionActivedView {
            seq_number: if self.seq_number == u32::MAX {
                0
            } else {
                (self.seq_number + 1) as u32
            },
            ..self
        }
    }

    /// What a datagram holds for this session: it must open under the
    /// session's keys, and be both authenticated and encrypted.
    pub open spec fn received(&self, datagram: Seq<u8>) -> Result<PacketView, Error> {
        match PacketView::spec_parse(datagram, Some((self.k1, self.k2))) {
            Err(e) => Err(e),
            Ok(packet) => match packet.ipmi_header {
                IpmiHeader::V2_0(h) => if h.payload_auth && h.payload_enc {
                    Ok(packet)
                } else {
                    Err(Error::Client(EClient::MisformedResponse))
                },
                _ => Err(Error::Client(EClient::MisformedResponse)),
            },
        }
    }
}

/// Each packet sent raises the sequence number by exactly one modulo 2^32:
/// it grows strictly until it wraps from the largest number to zero.
pub proof fn lemma_counter_advances(session: SessionActivedView)
    ensures
        session.advanced().seq_number == (session.seq_number + 1) % 0x1_0000_0000,
        session.seq_number < u32::MAX ==> session.advanced().seq_number > session.seq_number,
        session.advanced().managed_id == session.managed_id,
        session.advanced().k1 == session.k1,
        session.advanced().k2 == session.k2,
{
}

/// What the response `response` means for the command with code `command`:
/// a response to another command is cross-talk; a completion code other
/// than "completed normally" is an error that names command and code; else
/// the data are the command's to decode.
pub open spec fn response_data(command: CommandCode, response: PayloadView) -> Result<
    Seq<u8>,
    Error,
> {
    let (data, code) = response.spec_data_and_completion();
    match response.spec_command() {
        Some(c) if c != command => Err(
            Error::Client(EClient::CommandCodeCrossTalk { request: command, response: c }),
        ),
        _ => if code != CompletionCode::CompletedNormally {
            Err(Error::Client(EClient::CompletionCode(command, code)))
        } else {
            Ok(data)
        },
    }
}

/// Checks a response against the command that was sent and gives the data
/// to decode.
pub fn check_response(command: CommandCode, response: &Payload) -> (data: Result<Vec<u8>, Error>)
    ensures
        match (data, response_data(command, response@)) {
            (Ok(d), Ok(s)) => d@ == s,
            (Err(e), Err(f)) => e == f,
            _ => false,
        },
{
    let (data, code) = response.data_and_completion();
    match response.command() {
        Some(c) => {
            if c != command {
                return Err(
                    Error::Client(
                        EClient::CommandCodeCrossTalk { request: command, response: c },
                    ),
                );
            }
        },
        None => {},
    }
    match code {
        CompletionCode::CompletedNormally => Ok(data),
        _ => Err(Error::Client(EClient::CompletionCode(command, code))),
    }
}

impl SessionActived {
    /// The sequence number of the next packet.
    pub fn seq_number(&self) -> (seq: u32)
        ensures
            seq == self@.seq_number,
    {
        self.seq_number
    }

    /// The session identifier the BMC chose.
    pub fn managed_id(&self) -> (id: u32)
        ensures
            id == self@.managed_id,
    {
        self.managed_id
    }

    /// Protects `packet` for sending, chaining the encryption from `iv`.
    /// The packet gets the BMC's session identifier and the session's
    /// sequence number, and the sequence number of the session goes up by
    /// one, wrapping at 2^32. A packet that cannot be protected gives
    /// nothing and leaves the session as it is.
    pub fn seal_with_iv(&mut self, packet: &mut Packet, iv: [u8; 16]) -> (out: Option<Vec<u8>>)
        ensures
            final(packet)@ == old(self)@.addressed(old(packet)@),
            out is Some <==> final(packet)@.sealable(),
            out matches Some(bytes) ==> {
                &&& bytes@ == final(packet)@.spec_sealed(old(self)@.k1, old(self)@.k2, iv@)
                &&& spec_open(bytes@, Some((old(self)@.k1, old(self)@.k2))) == Ok::<Opened, Error>(
                    Opened {
                        rmcp_header: final(packet).rmcp_header,
                        ipmi_header: IpmiHeader::V2_0(final(packet)@.sealed_header()),
                        payload: final(packet)@.payload.spec_bytes(),
                    },
                )
                &&& final(self)@ == old(self)@.advanced()
            },
            out is None ==> final(self)@ == old(self)@,
    {
        packet.set_session_id(self.managed_id);
        packet.set_session_seq_num(self.seq_number);
        let out = packet.to_encrypted_bytes_with_iv(&self.k1, &self.k2, iv);
        if out.is_some() {
            self.seq_number = self.seq_number.wrapping_add(1);
        }
        out
    }

    /// Protects `packet` for sending, with a fresh random vector.
    pub fn seal(&mut self, packet: &mut Packet) -> (out: Option<Vec<u8>>)
        ensures
            final(packet)@ == old(self)@.addressed(old(packet)@),
            out is Some <==> final(packet)@.sealable(),
            out matches Some(bytes) ==> {
                &&& spec_open(bytes@, Some((old(self)@.k1, old(self)@.k2))) == Ok::<Opened, Error>(
                    Opened {
                        rmcp_header: final(packet).rmcp_header,
                        ipmi_header: IpmiHeader::V2_0(final(packet)@.sealed_header()),
                        payload: final(packet)@.payload.spec_bytes(),
                    },
                )
                &&& final(self)@ == old(self)@.advanced()
            },
            out is None ==> final(self)@ == old(self)@,
    {
        let iv = generate_iv();
        self.seal_with_iv(packet, iv)
    }

    /// Opens a received datagram: verifies its integrity trailer under K1,
    /// decrypts its payload under K2 and parses it. A packet that is not
    /// both authenticated and encrypted is rejected.
    pub fn open(&self, datagram: &[u8]) -> (packet: Result<Packet, Error>)
        ensures
            match (packet, self@.received(datagram@)) {
                (Ok(p), Ok(v)) => p@ == v,
                (Err(e), Err(f)) => e == f,
                _ => false,
            },
    {
        let packet = match Packet::try_from_session(datagram, &self.k1, &self.k2) {
            Err(e) => {
                return Err(e);
            },
            Ok(p) => p,
        };
        match packet.ipmi_header {
            IpmiHeader::V2_0(h) => {
                if h.payload_auth && h.payload_enc {
                    Ok(packet)
                } else {
                    Err(Error::Client(EClient::MisformedResponse))
                }
            },
            _ => Err(Error::Client(EClient::MisformedResponse)),
        }
    }

    /// Protects the request of `command` for sending: the datagram opens,
    /// under the keys of the session, to the request of the command behind a
    /// header with the BMC's session identifier and the session's sequence
    /// number. A request too long to be protected gives nothing.
    pub fn send_ipmi_cmd<CMD: IpmiCommand>(&mut self, command: &CMD) -> (out: Option<Vec<u8>>)
        ensures
            out is Some <==> command.spec_data().len() + 7 <= MAX_PROTECTED_PAYLOAD,
            out matches Some(bytes) ==> {
                &&& final(self)@ == old(self)@.advanced()
                &&& spec_open(bytes@, Some((old(self)@.k1, old(self)@.k2))) == Ok::<Opened, Error>(
                    Opened {
                        rmcp_header: RmcpHeader::spec_default(),
                        ipmi_header: IpmiHeader::V2_0(
                            IpmiV2Header::spec_new(
                                AuthType::RmcpPlus,
                                true,
                                true,
                                PayloadType::Ipmi,
                                old(self)@.managed_id,
                                old(self)@.seq_number,
                                encrypted_len((command.spec_data().len() + 7) as nat) as u16,
                            ),
                        ),
                        payload: ReqPayloadView::new(
                            command.spec_netfn(),
                            command.spec_command(),
                            command.spec_data(),
                        ).spec_bytes(),
                    },
                )
            },
            out is None ==> final(self)@ == old(self)@,
    {
        let mut packet = command.gen_packet();
        self.seal(&mut packet)
    }

    /// Takes the response to `command`: checks that it answers the command
    /// and completed normally, and decodes its data.
    pub fn receive_ipmi_cmd<CMD: IpmiCommand>(command: &CMD, response: &Packet) -> (output: Result<
        CMD::Output,
        Error,
    >)
        ensures
            match response_data(command.spec_command(), response@.payload) {
                Err(f) => output matches Err(e) && e == f,
                Ok(data) => match output {
                    Ok(o) => command.refuses(data) is None && command.decodes(data, o),
                    Err(e) => command.refuses(data) == Some(e),
                },
            },
    {
        let data = match check_response(command.command(), &response.payload) {
            Err(e) => {
                return Err(e);
            },
            Ok(d) => d,
        };
        command.parse(data.as_slice())
    }

    /// The command that ends this session.
    pub fn close_session(&self) -> (command: CloseSessionCMD)
        ensures
            command == CloseSessionCMD(self@.managed_id),
    {
        CloseSessionCMD::new(self.managed_id)
    }
}

/// How a client sends: how long it waits, how often it sends again, how
/// long it waits between, and whether it opens a new session after a
/// failure. The durations are in milliseconds.
#[derive(Clone, Copy, Debug, PartialEq, Eq, Structural)]
pub struct ClientConfig {
    pub read_timeout: u64,
    pub retries: u8,
    pub retry_delay: u64,
    pub auto_reconnect: bool,
}

impl ClientConfig {
    pub open spec fn spec_default() -> ClientConfig {
        ClientConfig { read_timeout: 20000, retries: 0, retry_delay: 300, auto_reconnect: false }
    }

    /// Sets how often a packet is sent again.
    pub fn retry(self, n: u8) -> (config: ClientConfig)
        ensures
            config == (ClientConfig { retries: n, ..self }),
    {
        ClientConfig { retries: n, ..self }
    }

    /// Sets the delay between two sends of a packet, in milliseconds.
    pub fn retry_duration(self, millis: u64) -> (config: ClientConfig)
        ensures
            config == (ClientConfig { retry_delay: millis, ..self }),
    {
        ClientConfig { retry_delay: millis, ..self }
    }

    /// Has the client open a new session after a failure that warrants it.
    pub fn auto_reconnect(self) -> (config: ClientConfig)
        ensures
            config == (ClientConfig { auto_reconnect: true, ..self }),
    {
        ClientConfig { auto_reconnect: true, ..self }
    }

    /// Whether a packet is sent again after `error`, with `attempts_left`
    /// further sends allowed: only a timeout, a socket fault or a missing
    /// response is worth another send of the same packet.
    pub fn should_retry(error: &Error, attempts_left: u8) -> (retry: bool)
        ensures
            retry == (attempts_left > 0 && error.spec_is_retryable()),
    {
        attempts_left > 0 && error.is_retryable()
    }

    /// Whether the client opens a new session after `error`.
    pub fn should_reconnect(&self, error: &Error) -> (reconnect: bool)
        ensures
            reconnect == (self.auto_reconnect && error.spec_triggers_reconnect()),
    {
        self.auto_reconnect && error.triggers_reconnect()
    }
}

impl Default for ClientConfig {
    /// A read timeout of 20 s, no retries, 300 ms between sends, no
    /// automatic reconnect.
    fn default() -> (config: ClientConfig)
        ensures
            config == ClientConfig::spec_default(),
    {
        ClientConfig { read_timeout: 20000, retries: 0, retry_delay: 300, auto_reconnect: false }
    }
}

} // verus!
