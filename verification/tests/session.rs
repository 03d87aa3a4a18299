use rust_ipmi::client::{
    check_response, derive_session_keys, rakp2_code_valid, rakp2_input, rakp3_input,
    rakp4_code_valid, rakp4_input, sik_input, ClientConfig, SessionActived, SessionInactived,
    State, Step,
};
use rust_ipmi::err::{ECrypto, EClient, EIpmiPayload, EPacket, Error};
use rust_ipmi::helpers::checksum;
use rust_ipmi::rmcp::ipmi::commands::{
    CloseSessionCMD, CommandCode, GetChassisStatus, GetDeviceSdrCommand, PowerState,
};
use rust_ipmi::rmcp::ipmi::header::v2::{IpmiV2Header, PayloadType};
use rust_ipmi::rmcp::ipmi::header::{AuthType, IpmiHeader};
use rust_ipmi::rmcp::ipmi::payload::netfn::NetFn;
use rust_ipmi::rmcp::ipmi::payload::request::{IpmiRawRequest, ReqPayload};
use rust_ipmi::rmcp::ipmi::storage::sdr::RecordId;
use rust_ipmi::rmcp::ipmi::{CompletionCode, IpmiCommand};
use rust_ipmi::rmcp::packet::{Packet, Payload};
use rust_ipmi::rmcp::plus::crypto::{
    add_tailer, aes_128_cbc_encrypt_with_iv, aes_key, hash_hmac_sha1,
};
use rust_ipmi::rmcp::plus::open_session::{RMCPPlusOpenSession, StatusCode};
use rust_ipmi::rmcp::plus::rakp::Rakp;

const CONSOLE_ID: u32 = 0xa0a2a3a4;
const MANAGED_ID: u32 = 0x11223344;
const CONSOLE_NONCE: u128 = 0x0f0e0d0c0b0a09080706050403020100;
const MANAGED_NONCE: u128 = 0x1f1e1d1c1b1a19181716151413121110;
const GUID: u128 = 0x2f2e2d2c2b2a29282726252423222120;

fn datagram(payload_type: u8, payload: &[u8]) -> Vec<u8> {
    let mut bytes = vec![0x06, 0x00, 0xff, 0x07, 0x06, payload_type, 0, 0, 0, 0, 0, 0, 0, 0];
    bytes.push((payload.len() % 256) as u8);
    bytes.push((payload.len() / 256) as u8);
    bytes.extend_from_slice(payload);
    bytes
}

fn response_bytes(command: u8, code: u8, data: &[u8]) -> Vec<u8> {
    let mut bytes = vec![0x81, 0x1c];
    bytes.push(checksum(&[0x81, 0x1c]));
    let mut covered = vec![0x20, 0x20, command, code];
    covered.extend_from_slice(data);
    let second = checksum(&covered);
    bytes.extend_from_slice(&covered);
    bytes.push(second);
    bytes
}

fn capabilities(extended: u8) -> Vec<u8> {
    datagram(0x00, &response_bytes(0x38, 0x00, &[0x01, 0x80, 0x04, extended, 0, 0, 0, 0]))
}

fn open_session_response(status: u8) -> Vec<u8> {
    let mut bytes = vec![0x00, status, 0x04, 0x00];
    bytes.extend_from_slice(&CONSOLE_ID.to_le_bytes());
    bytes.extend_from_slice(&MANAGED_ID.to_le_bytes());
    bytes.extend_from_slice(&[0x00, 0x00, 0x00, 0x08, 0x01, 0x00, 0x00, 0x00]);
    bytes.extend_from_slice(&[0x01, 0x00, 0x00, 0x08, 0x01, 0x00, 0x00, 0x00]);
    bytes.extend_from_slice(&[0x02, 0x00, 0x00, 0x08, 0x01, 0x00, 0x00, 0x00]);
    datagram(0x11, &bytes)
}

fn rakp2_code(username: &[u8], password: &[u8]) -> [u8; 20] {
    let mut covered = Vec::new();
    covered.extend_from_slice(&CONSOLE_ID.to_le_bytes());
    covered.extend_from_slice(&MANAGED_ID.to_le_bytes());
    covered.extend_from_slice(&CONSOLE_NONCE.to_le_bytes());
    covered.extend_from_slice(&MANAGED_NONCE.to_le_bytes());
    covered.extend_from_slice(&GUID.to_le_bytes());
    covered.push(0x14);
    covered.push(username.len() as u8);
    covered.extend_from_slice(username);
    hash_hmac_sha1(password, &covered)
}

fn rakp2(status: u8, code: &[u8]) -> Vec<u8> {
    let mut bytes = vec![0x00, status, 0x00, 0x00];
    bytes.extend_from_slice(&CONSOLE_ID.to_le_bytes());
    bytes.extend_from_slice(&MANAGED_NONCE.to_le_bytes());
    bytes.extend_from_slice(&GUID.to_le_bytes());
    bytes.extend_from_slice(code);
    datagram(0x13, &bytes)
}

fn session_integrity_key(username: &[u8], password: &[u8]) -> [u8; 20] {
    let mut input = Vec::new();
    input.extend_from_slice(&CONSOLE_NONCE.to_le_bytes());
    input.extend_from_slice(&MANAGED_NONCE.to_le_bytes());
    input.push(0x14);
    input.push(username.len() as u8);
    input.extend_from_slice(username);
    hash_hmac_sha1(password, &input)
}

fn rakp4_code(sik: &[u8; 20]) -> Vec<u8> {
    let mut covered = Vec::new();
    covered.extend_from_slice(&CONSOLE_NONCE.to_le_bytes());
    covered.extend_from_slice(&MANAGED_ID.to_le_bytes());
    covered.extend_from_slice(&GUID.to_le_bytes());
    hash_hmac_sha1(sik, &covered)[..12].to_vec()
}

fn rakp4(status: u8, code: &[u8]) -> Vec<u8> {
    let mut bytes = vec![0x00, status, 0x00, 0x00];
    bytes.extend_from_slice(&CONSOLE_ID.to_le_bytes());
    bytes.extend_from_slice(code);
    datagram(0x15, &bytes)
}

fn session_at_rakp2(username: &str, password: &str) -> SessionInactived {
    let mut session = SessionInactived::new(username, password, CONSOLE_NONCE).unwrap();
    session.start().unwrap();
    session.handle_datagram(&capabilities(0x02)).unwrap();
    session.handle_datagram(&open_session_response(0)).unwrap();
    session
}

fn established(username: &str, password: &str) -> SessionActived {
    let mut session = session_at_rakp2(username, password);
    let code = rakp2_code(username.as_bytes(), password.as_bytes());
    session.handle_datagram(&rakp2(0, &code)).unwrap();
    let sik = session_integrity_key(username.as_bytes(), password.as_bytes());
    assert_eq!(session.handle_datagram(&rakp4(0, &rakp4_code(&sik))), Ok(None));
    assert_eq!(session.state(), State::Established);
    session.activate().unwrap()
}

fn keys(username: &str, password: &str) -> ([u8; 20], [u8; 20]) {
    let sik = session_integrity_key(username.as_bytes(), password.as_bytes());
    (hash_hmac_sha1(&sik, &[1; 20]), hash_hmac_sha1(&sik, &[2; 20]))
}

fn protected_response(k1: [u8; 20], k2: [u8; 20], seq: u32, payload: Vec<u8>) -> Vec<u8> {
    let encrypted = aes_128_cbc_encrypt_with_iv(payload, aes_key(&k2), [0x5c; 16]);
    let header = IpmiV2Header::new(
        AuthType::RmcpPlus,
        true,
        true,
        PayloadType::Ipmi,
        CONSOLE_ID,
        seq,
        encrypted.len() as u16,
    );
    let mut session_part = header.to_vec();
    session_part.extend_from_slice(&encrypted);
    add_tailer(&mut session_part, k1);
    let mut bytes = vec![0x06, 0x00, 0xff, 0x07];
    bytes.extend_from_slice(&session_part);
    bytes
}

#[test]
fn handshake_messages_and_phases() {
    let mut session = SessionInactived::new("admin", "admin", CONSOLE_NONCE).unwrap();
    assert_eq!(session.state(), State::Discovery);
    assert_eq!(session.step(), Step::Start);
    let first = session.start().unwrap();
    assert_eq!(
        first.to_vec(),
        vec![
            0x06, 0x00, 0xff, 0x07, 0x06, 0x00, 0, 0, 0, 0, 0, 0, 0, 0, 0x09, 0x00, 0x20, 0x18,
            0xc8, 0x81, 0x20, 0x38, 0x8e, 0x04, 0x95
        ]
    );
    assert_eq!(session.state(), State::Discovery);
    assert_eq!(session.step(), Step::Capabilities);

    let open = session.handle_datagram(&capabilities(0x02)).unwrap().unwrap();
    assert_eq!(session.state(), State::Authenticating);
    assert_eq!(session.step(), Step::OpenSession);
    assert_eq!(open.len(), 48);
    assert_eq!(open[5], 0x10);
    assert_eq!(&open[16..24], &[0x00, 0x04, 0x00, 0x00, 0xa4, 0xa3, 0xa2, 0xa0]);
    assert_eq!(open[28], 0x01);
    assert_eq!(open[36], 0x01);
    assert_eq!(open[44], 0x01);

    let first_rakp = session.handle_datagram(&open_session_response(0)).unwrap().unwrap();
    assert_eq!(session.step(), Step::Rakp2);
    assert_eq!(first_rakp[5], 0x12);
    assert_eq!(first_rakp[14], 33);
    assert_eq!(&first_rakp[20..24], &MANAGED_ID.to_le_bytes());
    assert_eq!(&first_rakp[24..40], &CONSOLE_NONCE.to_le_bytes());
    assert_eq!(&first_rakp[40..44], &[0x14, 0x00, 0x00, 0x05]);
    assert_eq!(&first_rakp[44..], b"admin");

    let third = session
        .handle_datagram(&rakp2(0, &rakp2_code(b"admin", b"admin")))
        .unwrap()
        .unwrap();
    assert_eq!(session.step(), Step::Rakp4);
    assert_eq!(session.state(), State::Authenticating);
    assert_eq!(third[5], 0x14);
    assert_eq!(third.len(), 16 + 28);
    assert_eq!(&third[16..24], &[0, 0, 0, 0, 0x44, 0x33, 0x22, 0x11]);
    let mut proof_input = Vec::new();
    proof_input.extend_from_slice(&MANAGED_NONCE.to_le_bytes());
    proof_input.extend_from_slice(&CONSOLE_ID.to_le_bytes());
    proof_input.extend_from_slice(&[0x14, 0x05]);
    proof_input.extend_from_slice(b"admin");
    assert_eq!(&third[24..], &hash_hmac_sha1(b"admin", &proof_input)[..]);

    let sik = session_integrity_key(b"admin", b"admin");
    assert_eq!(session.handle_datagram(&rakp4(0, &rakp4_code(&sik))), Ok(None));
    assert_eq!(session.state(), State::Established);
    assert_eq!(session.step(), Step::Done);
    let active = session.activate().unwrap();
    assert_eq!(active.seq_number(), 1);
    assert_eq!(active.managed_id(), MANAGED_ID);
}

#[test]
fn usernames_of_all_allowed_lengths() {
    assert!(SessionInactived::new("", "secret", 1).is_ok());
    assert!(SessionInactived::new("0123456789abcdef", "secret", 1).is_ok());
    assert_eq!(
        SessionInactived::new("0123456789abcdefg", "secret", 1).err(),
        Some(Error::Client(EClient::UsernameTooLong))
    );
    assert_eq!(
        SessionInactived::with_credentials(&[0x41; 17], b"secret", 1).err(),
        Some(Error::Client(EClient::UsernameTooLong))
    );
    let active = established("", "pw");
    assert_eq!(active.seq_number(), 1);
    let active = established("0123456789abcdef", "pw");
    assert_eq!(active.managed_id(), MANAGED_ID);
}

#[test]
fn activation_needs_a_complete_key_exchange() {
    let session = SessionInactived::new("admin", "admin", CONSOLE_NONCE).unwrap();
    assert_eq!(
        session.activate().err(),
        Some(Error::Client(EClient::SessionNotEstablishedYet))
    );
    let session = session_at_rakp2("admin", "admin");
    assert_eq!(
        session.activate().err(),
        Some(Error::Client(EClient::SessionNotEstablishedYet))
    );
}

#[test]
fn start_only_once() {
    let mut session = SessionInactived::new("admin", "admin", CONSOLE_NONCE).unwrap();
    assert!(session.start().is_ok());
    assert_eq!(
        session.start().err(),
        Some(Error::Client(EClient::SessionNotEstablishedYet))
    );
    assert_eq!(session.step(), Step::Capabilities);
}

#[test]
fn datagrams_before_start_are_refused() {
    let mut session = SessionInactived::new("admin", "admin", CONSOLE_NONCE).unwrap();
    assert_eq!(
        session.handle_datagram(&capabilities(0x02)),
        Err(Error::Client(EClient::SessionNotEstablishedYet))
    );
}

#[test]
fn peer_with_ipmi_1_5_only() {
    let mut session = SessionInactived::new("admin", "admin", CONSOLE_NONCE).unwrap();
    session.start().unwrap();
    assert_eq!(
        session.handle_datagram(&capabilities(0x01)),
        Err(Error::Client(EClient::UnsupportedVersion))
    );
    assert_eq!(session.step(), Step::Capabilities);
}

#[test]
fn capabilities_failures() {
    let mut session = SessionInactived::new("admin", "admin", CONSOLE_NONCE).unwrap();
    session.start().unwrap();
    assert_eq!(
        session.handle_datagram(&datagram(0x00, &response_bytes(0x38, 0xc1, &[]))),
        Err(Error::Client(EClient::CompletionCode(
            CommandCode::GetChannelAuthCapabilities,
            CompletionCode::InvalidCommand
        )))
    );
    assert_eq!(
        session.handle_datagram(&datagram(0x00, &response_bytes(0x38, 0x00, &[1, 2, 3]))),
        Err(Error::Packet(EPacket::IpmiPayload(EIpmiPayload::WrongLength)))
    );
    assert_eq!(
        session.handle_datagram(&open_session_response(0)),
        Err(Error::Client(EClient::MisformedResponse))
    );
    assert_eq!(
        session.handle_datagram(&[0; 5]),
        Err(Error::Packet(EPacket::WrongLength))
    );
    assert_eq!(session.step(), Step::Capabilities);
}

#[test]
fn open_session_status_other_than_no_errors() {
    let mut session = SessionInactived::new("admin", "admin", CONSOLE_NONCE).unwrap();
    session.start().unwrap();
    session.handle_datagram(&capabilities(0x02)).unwrap();
    assert_eq!(
        session.handle_datagram(&open_session_response(0x01)),
        Err(Error::Client(EClient::FailedToOpenSession(StatusCode::InsufficientResources)))
    );
    let mut short = vec![0x00, 0x11, 0x00, 0x00];
    short.extend_from_slice(&CONSOLE_ID.to_le_bytes());
    assert_eq!(
        session.handle_datagram(&datagram(0x11, &short)),
        Err(Error::Client(EClient::FailedToOpenSession(StatusCode::NoCipherSuiteMatch)))
    );
    assert_eq!(session.step(), Step::OpenSession);
    assert_eq!(session.state(), State::Authenticating);
}

#[test]
fn rakp2_with_a_flipped_bit() {
    for bit in [0usize, 7, 80, 159] {
        let mut session = session_at_rakp2("admin", "admin");
        let mut code = rakp2_code(b"admin", b"admin");
        code[bit / 8] ^= 1 << (bit % 8);
        assert_eq!(
            session.handle_datagram(&rakp2(0, &code)),
            Err(Error::Client(EClient::FailedToValidateRAKP2))
        );
        assert_eq!(session.step(), Step::Rakp2);
    }
}

#[test]
fn rakp2_with_the_wrong_password() {
    let mut session = session_at_rakp2("admin", "wrong");
    assert_eq!(
        session.handle_datagram(&rakp2(0, &rakp2_code(b"admin", b"admin"))),
        Err(Error::Client(EClient::FailedToValidateRAKP2))
    );
}

#[test]
fn rakp2_without_code_or_body() {
    let mut session = session_at_rakp2("admin", "admin");
    assert_eq!(
        session.handle_datagram(&rakp2(0, &[])),
        Err(Error::Client(EClient::FailedToValidateRAKP2))
    );
    let mut empty = datagram(0x13, &[]);
    empty.extend_from_slice(&[0; 4]);
    assert_eq!(
        session.handle_datagram(&empty),
        Err(Error::Client(EClient::FailedToValidateRAKP2))
    );
    let mut refusal = vec![0x00, 0x0d, 0x00, 0x00];
    refusal.extend_from_slice(&CONSOLE_ID.to_le_bytes());
    assert_eq!(
        session.handle_datagram(&datagram(0x13, &refusal)),
        Err(Error::Client(EClient::FailedToOpenSession(StatusCode::UnauthorizedName)))
    );
    assert_eq!(
        session.handle_datagram(&rakp4(0, &[0; 12])),
        Err(Error::Client(EClient::MisformedResponse))
    );
}

#[test]
fn rakp4_failures() {
    let mut session = session_at_rakp2("admin", "admin");
    session.handle_datagram(&rakp2(0, &rakp2_code(b"admin", b"admin"))).unwrap();
    let sik = session_integrity_key(b"admin", b"admin");
    let mut code = rakp4_code(&sik);
    code[11] ^= 0x80;
    assert_eq!(
        session.handle_datagram(&rakp4(0, &code)),
        Err(Error::Client(EClient::MismatchedKeyExchangeAuthCode))
    );
    assert_eq!(
        session.handle_datagram(&rakp4(0, &[])),
        Err(Error::Client(EClient::MismatchedKeyExchangeAuthCode))
    );
    assert_eq!(
        session.handle_datagram(&rakp4(0x0f, &[])),
        Err(Error::Client(EClient::FailedToOpenSession(StatusCode::InvalidIntegrityCheckValue)))
    );
    assert_eq!(
        session.handle_datagram(&rakp4(0, &hash_hmac_sha1(&sik, &[0])[..])),
        Err(Error::Packet(EPacket::IpmiPayload(EIpmiPayload::WrongLength)))
    );
    assert_eq!(session.state(), State::Authenticating);
    assert_eq!(session.handle_datagram(&rakp4(0, &rakp4_code(&sik))), Ok(None));
    assert_eq!(
        session.handle_datagram(&rakp4(0, &rakp4_code(&sik))),
        Err(Error::Client(EClient::SessionNotEstablishedYet))
    );
}

#[test]
fn session_keys_from_zero_nonces() {
    let derived = derive_session_keys(b"admin", 0, 0, 0x14, b"admin");
    let mut input = vec![0u8; 32];
    input.extend_from_slice(&[0x14, 0x05]);
    input.extend_from_slice(b"admin");
    assert_eq!(sik_input(0, 0, 0x14, b"admin"), input);
    let sik = hash_hmac_sha1(b"admin", &input);
    assert_eq!(derived.sik, sik);
    assert_eq!(derived.k1, hash_hmac_sha1(&sik, &[1; 20]));
    assert_eq!(derived.k2, hash_hmac_sha1(&sik, &[2; 20]));
    assert_ne!(derived.k1, derived.k2);
}

#[test]
fn session_key_depends_on_nonces_and_role() {
    let base = derive_session_keys(b"pw", 1, 2, 0x14, b"user").sik;
    assert_ne!(base, derive_session_keys(b"pw", 3, 2, 0x14, b"user").sik);
    assert_ne!(base, derive_session_keys(b"pw", 1, 3, 0x14, b"user").sik);
    assert_ne!(base, derive_session_keys(b"pw", 1, 2, 0x04, b"user").sik);
    assert_ne!(base, derive_session_keys(b"pw2", 1, 2, 0x14, b"user").sik);
    assert_eq!(base, derive_session_keys(b"pw", 1, 2, 0x14, b"user").sik);
}

#[test]
fn key_exchange_inputs() {
    let second = rakp2_input(0x04030201, 0x08070605, 1, 2, 3, 0x14, b"ab");
    assert_eq!(second.len(), 4 + 4 + 16 + 16 + 16 + 2 + 2);
    assert_eq!(&second[..8], &[1, 2, 3, 4, 5, 6, 7, 8]);
    assert_eq!(second[8], 1);
    assert_eq!(second[24], 2);
    assert_eq!(second[40], 3);
    assert_eq!(&second[56..], &[0x14, 2, b'a', b'b']);
    let third = rakp3_input(2, 0x04030201, 0x14, b"ab");
    assert_eq!(third.len(), 16 + 4 + 2 + 2);
    assert_eq!(third[0], 2);
    assert_eq!(&third[16..], &[1, 2, 3, 4, 0x14, 2, b'a', b'b']);
    let fourth = rakp4_input(1, 0x08070605, 3);
    assert_eq!(fourth.len(), 36);
    assert_eq!(fourth[0], 1);
    assert_eq!(&fourth[16..20], &[5, 6, 7, 8]);
    assert_eq!(fourth[20], 3);
}

#[test]
fn code_comparisons() {
    let tag = [7u8; 20];
    assert!(rakp2_code_valid(&Some([7u8; 20]), &tag));
    assert!(!rakp2_code_valid(&Some([8u8; 20]), &tag));
    assert!(!rakp2_code_valid(&None, &tag));
    assert!(rakp4_code_valid(&Some([7u8; 12]), &tag));
    assert!(!rakp4_code_valid(&Some([6u8; 12]), &tag));
    assert!(!rakp4_code_valid(&None, &tag));
}

fn sequence_in(datagram: &[u8]) -> u32 {
    u32::from_le_bytes([datagram[10], datagram[11], datagram[12], datagram[13]])
}

#[test]
fn sequence_counter_after_three_sends() {
    let mut active = established("admin", "admin");
    for expected in 1u32..=3 {
        let sent = active.send_ipmi_cmd(&GetChassisStatus).unwrap();
        assert_eq!(sequence_in(&sent), expected);
        assert_eq!(active.seq_number(), expected + 1);
    }
    let fourth = active.send_ipmi_cmd(&GetChassisStatus).unwrap();
    assert_eq!(sequence_in(&fourth), 4);
    assert_eq!(&fourth[6..10], &MANAGED_ID.to_le_bytes());
}

#[test]
fn unsealable_packet_leaves_the_counter() {
    let mut active = established("admin", "admin");
    let mut old = Packet::default();
    assert_eq!(active.seal(&mut old), None);
    assert_eq!(active.seq_number(), 1);
    let mut response = Packet::try_from(&capabilities(0x02)).unwrap();
    assert_eq!(active.seal(&mut response), None);
    assert_eq!(active.seq_number(), 1);
    let mut long = IpmiRawRequest::new(NetFn::App, CommandCode::Raw(1), vec![0; 65496]).create_packet();
    assert_eq!(active.seal(&mut long), None);
    let mut fits = IpmiRawRequest::new(NetFn::App, CommandCode::Raw(1), vec![0; 65495]).create_packet();
    assert!(active.seal(&mut fits).is_some());
    assert_eq!(active.seq_number(), 2);
}

#[test]
fn sealed_packet_layout() {
    let mut active = established("admin", "admin");
    let (k1, k2) = keys("admin", "admin");
    let mut packet = GetChassisStatus.gen_packet();
    let sent = active.seal_with_iv(&mut packet, [0xab; 16]).unwrap();
    assert_eq!(&sent[..4], &[0x06, 0x00, 0xff, 0x07]);
    assert_eq!(&sent[4..6], &[0x06, 0xc0]);
    assert_eq!(&sent[14..16], &[32, 0]);
    assert_eq!(&sent[16..32], &[0xab; 16]);
    assert_eq!(sent.len(), 4 + 12 + 32 + 2 + 2 + 12);
    assert_eq!(&sent[48..52], &[0xff, 0xff, 0x02, 0x07]);
    assert_eq!(&sent[52..], &hash_hmac_sha1(&k1, &sent[4..52])[..12]);
    let plain = ReqPayload::new(NetFn::Chassis, CommandCode::Raw(0x01), Vec::new()).to_vec();
    assert_eq!(
        &sent[16..48],
        &aes_128_cbc_encrypt_with_iv(plain, aes_key(&k2), [0xab; 16])[..]
    );
    assert_eq!(packet.ipmi_header.payload_len(), 32);
    assert_eq!(packet.ipmi_header.seq_num(), 1);
    assert_eq!(
        Packet::default().to_encrypted_bytes(&k1, &k2),
        None
    );
    let again = GetChassisStatus.gen_packet().to_encrypted_bytes_with_iv(&k1, &k2, [0xab; 16]).unwrap();
    assert_eq!(&again[16..48], &sent[16..48]);
}

#[test]
fn response_is_opened_and_decoded() {
    let active = established("admin", "admin");
    let (k1, k2) = keys("admin", "admin");
    let bytes = protected_response(k1, k2, 1, response_bytes(0x01, 0x00, &[0x21, 0x10, 0x40, 0x70]));
    let packet = active.open(&bytes).unwrap();
    let status = SessionActived::receive_ipmi_cmd(&GetChassisStatus, &packet).unwrap();
    assert_eq!(status.p_state, PowerState::On);
    assert_eq!(status.power_state, 0x21);
    assert_eq!(status.last_power_event, 0x10);
    assert_eq!(status.state, 0x40);
    assert_eq!(status.front_control_panel, 0x70);
}

#[test]
fn tampered_response_is_rejected() {
    let active = established("admin", "admin");
    let (k1, k2) = keys("admin", "admin");
    let bytes = protected_response(k1, k2, 1, response_bytes(0x01, 0x00, &[0x21, 0x10, 0x40, 0x70]));
    for at in [6usize, 12, 20, 40, bytes.len() - 14, bytes.len() - 13, bytes.len() - 1] {
        let mut changed = bytes.clone();
        changed[at] ^= 0x04;
        assert_eq!(active.open(&changed), Err(Error::Crypto(ECrypto::AuthCodeMismatch)));
    }
    let other = protected_response([0; 20], k2, 1, response_bytes(0x01, 0x00, &[1, 2, 3, 4]));
    assert_eq!(active.open(&other), Err(Error::Crypto(ECrypto::AuthCodeMismatch)));
    let mut longer = bytes.clone();
    longer.push(0);
    assert_eq!(active.open(&longer), Err(Error::Crypto(ECrypto::AuthCodeMismatch)));
}

#[test]
fn unprotected_response_is_rejected() {
    let active = established("admin", "admin");
    assert_eq!(
        active.open(&datagram(0x00, &response_bytes(0x01, 0x00, &[1, 2, 3, 4]))),
        Err(Error::Client(EClient::MisformedResponse))
    );
    assert_eq!(active.open(&[0; 10]), Err(Error::Packet(EPacket::WrongLength)));
}

#[test]
fn record_not_present_is_a_distinct_error() {
    let active = established("admin", "admin");
    let (k1, k2) = keys("admin", "admin");
    let command = GetDeviceSdrCommand::new(None, RecordId::first());
    let bytes = protected_response(k1, k2, 1, response_bytes(0x23, 0xcb, &[]));
    let packet = active.open(&bytes).unwrap();
    let error = SessionActived::receive_ipmi_cmd(&command, &packet).err().unwrap();
    assert_eq!(
        error,
        Error::Client(EClient::CompletionCode(
            CommandCode::Raw(0x23),
            CompletionCode::RqSensorDataRecordNotPresent
        ))
    );
    assert!(error.is_rq_sensor_data_record_not_present());
    assert!(!error.triggers_reconnect());
    assert!(!error.is_retryable());
    assert!(!Error::Client(EClient::CompletionCode(CommandCode::Raw(0x23), CompletionCode::NodeBusy))
        .is_rq_sensor_data_record_not_present());
    assert!(!Error::Timeout.is_rq_sensor_data_record_not_present());
}

#[test]
fn response_to_another_command_is_cross_talk() {
    let response = Payload::IpmiResp(
        rust_ipmi::rmcp::ipmi::payload::response::RespPayload::try_from(&response_bytes(0x22, 0x00, &[1, 2])).unwrap(),
    );
    let error = check_response(CommandCode::Raw(0x23), &response).err().unwrap();
    assert_eq!(
        error,
        Error::Client(EClient::CommandCodeCrossTalk {
            request: CommandCode::Raw(0x23),
            response: CommandCode::Raw(0x22)
        })
    );
    assert!(error.triggers_reconnect());
    assert_eq!(check_response(CommandCode::Raw(0x22), &response), Ok(vec![1, 2]));
    assert_eq!(check_response(CommandCode::Raw(0x22), &Payload::Empty), Ok(Vec::new()));
}

#[test]
fn close_session_command() {
    let active = established("admin", "admin");
    let close = active.close_session();
    assert_eq!(close, CloseSessionCMD::new(MANAGED_ID));
    assert_eq!(close.netfn(), NetFn::App);
    assert_eq!(close.command(), CommandCode::CloseSession);
    assert_eq!(
        close.payload(),
        Payload::IpmiReq(ReqPayload::new(NetFn::App, CommandCode::CloseSession, vec![0x44, 0x33, 0x22, 0x11]))
    );
    assert_eq!(close.parse(&[]), Ok(()));
    assert_eq!(close.gen_packet().ipmi_header, IpmiHeader::V2_0(IpmiV2Header::new_est(32)));
}

#[test]
fn client_configuration() {
    let config = ClientConfig::default();
    assert_eq!(config.read_timeout, 20_000);
    assert_eq!(config.retries, 0);
    assert_eq!(config.retry_delay, 300);
    assert!(!config.auto_reconnect);
    let tuned = config.retry(3).retry_duration(50).auto_reconnect();
    assert_eq!(tuned.retries, 3);
    assert_eq!(tuned.retry_delay, 50);
    assert!(tuned.auto_reconnect);
    assert_eq!(tuned.read_timeout, 20_000);
}

#[test]
fn retry_and_reconnect_decisions() {
    assert!(ClientConfig::should_retry(&Error::Timeout, 1));
    assert!(ClientConfig::should_retry(&Error::Io, 2));
    assert!(ClientConfig::should_retry(&Error::Client(EClient::NoResponse), 1));
    assert!(ClientConfig::should_retry(&Error::Client(EClient::FailedSend), 1));
    assert!(!ClientConfig::should_retry(&Error::Timeout, 0));
    assert!(!ClientConfig::should_retry(&Error::Client(EClient::FailedToValidateRAKP2), 5));
    assert!(!ClientConfig::should_retry(&Error::Crypto(ECrypto::AuthCodeMismatch), 5));
    let on = ClientConfig::default().auto_reconnect();
    let off = ClientConfig::default();
    assert!(on.should_reconnect(&Error::Timeout));
    assert!(on.should_reconnect(&Error::Io));
    assert!(on.should_reconnect(&Error::Client(EClient::FailedBind)));
    assert!(on.should_reconnect(&Error::Client(EClient::ConnectToIPMIServer)));
    assert!(!on.should_reconnect(&Error::Client(EClient::FailedToValidateRAKP2)));
    assert!(!on.should_reconnect(&Error::Client(EClient::MismatchedKeyExchangeAuthCode)));
    assert!(!on.should_reconnect(&Error::TryFromU8(3)));
    assert!(!off.should_reconnect(&Error::Timeout));
}

#[test]
fn handle_packet_by_parts() {
    let mut session = SessionInactived::new("admin", "admin", CONSOLE_NONCE).unwrap();
    session.start().unwrap();
    let caps = Packet::try_from(&capabilities(0x02)).unwrap();
    let next = session.handle_packet(&caps).unwrap().unwrap();
    assert!(matches!(next.payload, Payload::Rmcp(RMCPPlusOpenSession::Request(_))));
    let open = Packet::try_from(&open_session_response(0)).unwrap();
    let next = session.handle_packet(&open).unwrap().unwrap();
    match next.payload {
        Payload::Rakp(Rakp::Message1(message)) => {
            assert_eq!(message.managed_id, MANAGED_ID);
            assert_eq!(message.console_rnd_number, CONSOLE_NONCE);
            assert_eq!(message.username, b"admin".to_vec());
        }
        _ => panic!("RAKP message 1 expected"),
    }
}

#[test]
fn sequence_counter_grows_by_one_per_send() {
    let mut active = established("admin", "admin");
    let mut last = active.seq_number();
    for _ in 0..20 {
        let sent = active.send_ipmi_cmd(&GetChassisStatus).unwrap();
        assert_eq!(sequence_in(&sent), last);
        assert_eq!(active.seq_number(), last.wrapping_add(1));
        last = active.seq_number();
    }
}
