use rust_ipmi::err::{ECommand, ECommandCode, EClient, EIpmiHeader, EIpmiPayload, EPacket, ERMCPHeader, EV1Header, EV2Header, Error};
use rust_ipmi::helpers::{
    append_be, append_le, append_u128_to_vec, append_u16_to_vec, append_u32_to_vec, bytes_eq,
    checksum, read_be, read_le, read_u128_le, read_u16_le, read_u32_le,
};
use rust_ipmi::rmcp::header::{MessageClass, RmcpHeader};
use rust_ipmi::rmcp::ipmi::commands::{CommandCode, Privilege};
use rust_ipmi::rmcp::ipmi::header::v1::IpmiV1Header;
use rust_ipmi::rmcp::ipmi::header::v2::{IpmiV2Header, PayloadType};
use rust_ipmi::rmcp::ipmi::header::{AuthType, IpmiHeader};
use rust_ipmi::rmcp::ipmi::payload::bmc::{Address, SlaveAddress, SoftwareType};
use rust_ipmi::rmcp::ipmi::payload::lun::Lun;
use rust_ipmi::rmcp::ipmi::payload::netfn::{CommandType, NetFn, NetfnLun};
use rust_ipmi::rmcp::ipmi::payload::request::{IpmiRawRequest, ReqPayload};
use rust_ipmi::rmcp::ipmi::payload::response::RespPayload;
use rust_ipmi::rmcp::ipmi::{CompletionCode, IpmiCommand};
use rust_ipmi::rmcp::packet::{Packet, Payload};
use rust_ipmi::rmcp::plus::open_session::{
    AuthAlgorithm, ConfidentialityAlgorithm, IntegrityAlgorithm, RMCPPlusOpenSession,
    RMCPPlusOpenSessionRequest, RMCPPlusOpenSessionResponse, StatusCode,
};
use rust_ipmi::rmcp::plus::rakp::{
    privilege, RAKPMessage1, RAKPMessage2, RAKPMessage3, RAKPMessage4, Rakp,
};

#[test]
fn little_endian_append_and_read() {
    let mut v = vec![0xaa];
    append_u32_to_vec(&mut v, 0xa0a2a3a4);
    assert_eq!(v, vec![0xaa, 0xa4, 0xa3, 0xa2, 0xa0]);
    append_u16_to_vec(&mut v, 0x1234);
    assert_eq!(&v[5..], &[0x34, 0x12]);
    let mut w = Vec::new();
    append_u128_to_vec(&mut w, 0x0102030405060708090a0b0c0d0e0f10);
    assert_eq!(
        w,
        vec![0x10, 0x0f, 0x0e, 0x0d, 0x0c, 0x0b, 0x0a, 0x09, 0x08, 0x07, 0x06, 0x05, 0x04, 0x03, 0x02, 0x01]
    );
    assert_eq!(read_u128_le(&w, 0), 0x0102030405060708090a0b0c0d0e0f10);
    assert_eq!(read_u32_le(&v, 1), 0xa0a2a3a4);
    assert_eq!(read_u16_le(&v, 5), 0x1234);
    assert_eq!(read_le(&[1, 2, 3], 0, 3), 0x030201);
    let mut z = Vec::new();
    append_le(&mut z, 0x010203, 0);
    assert!(z.is_empty());
    append_le(&mut z, u128::MAX, 16);
    assert_eq!(z, vec![0xff; 16]);
}

#[test]
fn big_endian_append_and_read() {
    let mut v = Vec::new();
    append_be(&mut v, 0x01020304, 4);
    assert_eq!(v, vec![1, 2, 3, 4]);
    assert_eq!(read_be(&v, 0, 4), 0x01020304);
    assert_eq!(read_be(&v, 1, 2), 0x0203);
}

#[test]
fn byte_strings_compare() {
    assert!(bytes_eq(&[1, 2, 3], &[1, 2, 3]));
    assert!(!bytes_eq(&[1, 2, 3], &[1, 2, 4]));
    assert!(!bytes_eq(&[1, 2, 3], &[1, 2]));
    assert!(bytes_eq(&[], &[]));
}

#[test]
fn rmcp_header_default_bytes() {
    let h = RmcpHeader::default();
    assert_eq!(h.to_bytes(), [0x06, 0x00, 0xff, 0x07]);
    assert_eq!(h.to_vec(), vec![0x06, 0x00, 0xff, 0x07]);
    assert_eq!(RmcpHeader::try_from(&[0x06, 0x00, 0xff, 0x07]), Ok(h));
}

#[test]
fn rmcp_header_round_trip_with_ack() {
    let h = RmcpHeader {
        version: 6,
        reserved: 0,
        sequence_number: 3,
        rmcp_ack: true,
        message_class: MessageClass::Asf,
    };
    assert_eq!(h.to_bytes(), [6, 0, 3, 0x86]);
    assert_eq!(RmcpHeader::try_from(&h.to_bytes()), Ok(h));
}

#[test]
fn rmcp_header_errors() {
    assert_eq!(
        RmcpHeader::try_from(&[6, 0, 0xff]),
        Err(Error::Packet(EPacket::RmcpHeader(ERMCPHeader::WrongLength)))
    );
    assert_eq!(
        RmcpHeader::try_from(&[6, 0, 0xff, 0x05]),
        Err(Error::Packet(EPacket::RmcpHeader(ERMCPHeader::UnsupportedMessageClass(5))))
    );
    assert_eq!(MessageClass::try_from(9), Err(ERMCPHeader::UnsupportedMessageClass(9)));
    assert_eq!(MessageClass::try_from(8), Ok(MessageClass::Oem));
    assert_eq!(MessageClass::Oem.to_byte(), 8);
}

#[test]
fn auth_type_codes() {
    assert_eq!(AuthType::try_from(0), Ok(AuthType::NoAuth));
    assert_eq!(AuthType::try_from(6), Ok(AuthType::RmcpPlus));
    assert_eq!(AuthType::try_from(3), Err(EIpmiHeader::UnsupportedAuthType(3)));
    assert_eq!(AuthType::PasswordOrKey.to_byte(), 4);
}

#[test]
fn payload_type_codes() {
    assert_eq!(PayloadType::try_from(0x13), Ok(PayloadType::RAKP2));
    assert_eq!(PayloadType::try_from(0xc0), Ok(PayloadType::Ipmi));
    assert_eq!(PayloadType::try_from(0x20), Err(EV2Header::UnsupportedPayloadType(0x20)));
    assert_eq!(PayloadType::RmcpOpenSessionResponse.to_byte(), 0x11);
}

#[test]
fn v2_header_bytes_and_round_trip() {
    let h = IpmiV2Header::new(
        AuthType::RmcpPlus,
        true,
        true,
        PayloadType::Ipmi,
        0x04030201,
        0x0000_0007,
        0x0020,
    );
    let bytes = h.to_vec();
    assert_eq!(bytes, vec![0x06, 0xc0, 0x01, 0x02, 0x03, 0x04, 0x07, 0, 0, 0, 0x20, 0x00]);
    assert_eq!(IpmiV2Header::try_from(&bytes), Ok(h));
    assert_eq!(IpmiHeader::try_from(&bytes), Ok(IpmiHeader::V2_0(h)));
}

#[test]
fn v2_header_constructors() {
    let est = IpmiV2Header::new_est(32);
    assert!(est.payload_enc && est.payload_auth);
    assert_eq!(est.payload_type, PayloadType::Ipmi);
    assert_eq!(est.payload_length, 32);
    assert_eq!(est.rmcp_plus_session_id, 0);
    let pre = IpmiV2Header::new_pre(PayloadType::RAKP1, 28);
    assert!(!pre.payload_enc && !pre.payload_auth);
    assert_eq!(pre.payload_type, PayloadType::RAKP1);
    assert_eq!(pre.to_vec()[1], 0x12);
}

#[test]
fn v2_oem_header_round_trip() {
    let h = IpmiV2Header {
        oem_iana: Some(0x00112233),
        oem_payload_id: Some(0x4455),
        ..IpmiV2Header::new(AuthType::RmcpPlus, false, true, PayloadType::Oem, 1, 2, 3)
    };
    let bytes = h.to_vec();
    assert_eq!(bytes.len(), 18);
    assert_eq!(&bytes[..8], &[0x06, 0x42, 0x33, 0x22, 0x11, 0x00, 0x55, 0x44]);
    assert_eq!(IpmiV2Header::try_from(&bytes), Ok(h));
}

#[test]
fn v2_header_errors() {
    assert_eq!(
        IpmiV2Header::try_from(&[6; 11]),
        Err(EIpmiHeader::V2(EV2Header::WrongLength))
    );
    let mut bytes = IpmiV2Header::new_est(0).to_vec();
    bytes[1] = 0x3f;
    assert_eq!(
        IpmiV2Header::try_from(&bytes),
        Err(EIpmiHeader::V2(EV2Header::UnsupportedPayloadType(0x3f)))
    );
    bytes[1] = 0x02;
    assert_eq!(
        IpmiV2Header::try_from(&bytes),
        Err(EIpmiHeader::V2(EV2Header::WrongLength))
    );
    bytes[0] = 0x03;
    assert_eq!(IpmiV2Header::try_from(&bytes), Err(EIpmiHeader::UnsupportedAuthType(3)));
}

#[test]
fn v1_header_round_trip() {
    let plain = IpmiV1Header::default();
    assert_eq!(plain.to_vec(), vec![0; 10]);
    assert_eq!(IpmiV1Header::try_from(&plain.to_vec()), Ok(plain));
    let with_code = IpmiV1Header {
        auth_type: AuthType::MD5,
        session_seq_number: 0x01020304,
        session_id: 0x0a0b0c0d,
        auth_code: Some(0x000102030405060708090a0b0c0d0e0f),
        payload_length: 9,
    };
    let bytes = with_code.to_vec();
    assert_eq!(bytes.len(), 26);
    assert_eq!(&bytes[..9], &[0x02, 1, 2, 3, 4, 0x0a, 0x0b, 0x0c, 0x0d]);
    assert_eq!(bytes[9], 0x00);
    assert_eq!(bytes[24], 0x0f);
    assert_eq!(bytes[25], 9);
    assert_eq!(IpmiV1Header::try_from(&bytes), Ok(with_code));
    assert_eq!(IpmiHeader::try_from(&bytes), Ok(IpmiHeader::V1_5(with_code)));
    assert_eq!(
        IpmiV1Header::try_from(&bytes[..10]),
        Err(EIpmiHeader::V1(EV1Header::WrongLength))
    );
    assert_eq!(
        IpmiV1Header::try_from(&[0; 12]),
        Err(EIpmiHeader::V1(EV1Header::WrongLength))
    );
}

#[test]
fn header_lengths() {
    assert_eq!(IpmiHeader::header_len(0x06, 0x00), Ok(12));
    assert_eq!(IpmiHeader::header_len(0x06, 0xc0), Ok(12));
    assert_eq!(IpmiHeader::header_len(0x06, 0x02), Ok(18));
    assert_eq!(IpmiHeader::header_len(0x00, 0x00), Ok(10));
    assert_eq!(IpmiHeader::header_len(0x02, 0x00), Ok(26));
    assert_eq!(IpmiHeader::header_len(0x07, 0x00), Err(EIpmiHeader::UnsupportedAuthType(7)));
    assert_eq!(
        IpmiHeader::header_len(0x06, 0x30),
        Err(EIpmiHeader::V2(EV2Header::UnsupportedPayloadType(0x30)))
    );
}

#[test]
fn header_accessors() {
    let mut h = IpmiHeader::V2_0(IpmiV2Header::new_est(7));
    assert_eq!(h.payload_type(), PayloadType::Ipmi);
    assert_eq!(h.payload_len(), 7);
    assert_eq!(h.seq_num(), 0);
    h.set_payload_len(48);
    assert_eq!(h.payload_len(), 48);
    h.set_payload_len(65536 + 5);
    assert_eq!(h.payload_len(), 5);
    let mut v1 = IpmiHeader::V1_5(IpmiV1Header::default());
    assert_eq!(v1.payload_type(), PayloadType::Ipmi);
    v1.set_payload_len(300);
    assert_eq!(v1.payload_len(), 44);
    assert_eq!(IpmiHeader::try_from(&[]), Err(Error::Packet(EPacket::WrongLength)));
}

#[test]
fn completion_codes() {
    assert_eq!(CompletionCode::from(0x00), CompletionCode::CompletedNormally);
    assert_eq!(CompletionCode::from(0xcb), CompletionCode::RqSensorDataRecordNotPresent);
    assert_eq!(CompletionCode::from(0xd6), CompletionCode::CannotExecuteCommandIllegalParam);
    assert_eq!(CompletionCode::from(0xff), CompletionCode::UnspecifiedError);
    assert_eq!(CompletionCode::from(0x01), CompletionCode::OEM(0x01));
    assert_eq!(CompletionCode::from(0x7e), CompletionCode::OEM(0x7e));
    assert_eq!(CompletionCode::from(0x7f), CompletionCode::Reserved(0x7f));
    assert_eq!(CompletionCode::from(0x80), CompletionCode::CommandCode(0x80));
    assert_eq!(CompletionCode::from(0xbe), CompletionCode::CommandCode(0xbe));
    assert_eq!(CompletionCode::from(0xbf), CompletionCode::Reserved(0xbf));
    assert!(CompletionCode::from(0).is_success());
    assert!(!CompletionCode::from(0xc0).is_success());
    assert!(CompletionCode::from(0xd7).is_reserved());
    assert!(!CompletionCode::from(0xc3).is_reserved());
    for b in 0u8..=255 {
        assert_eq!(CompletionCode::from(b).to_byte(), b);
    }
}

#[test]
fn check_cc_success_maps_failures() {
    assert_eq!(
        rust_ipmi::CloseSessionCMD::check_cc_success(CompletionCode::CompletedNormally),
        Ok(CompletionCode::CompletedNormally)
    );
    assert_eq!(
        rust_ipmi::CloseSessionCMD::check_cc_success(CompletionCode::NodeBusy),
        Err(Error::Packet(EPacket::IpmiPayload(EIpmiPayload::CompletionCode(
            CompletionCode::NodeBusy
        ))))
    );
}

#[test]
fn command_codes() {
    assert_eq!(CommandCode::from(0x38), CommandCode::GetChannelAuthCapabilities);
    assert_eq!(CommandCode::from(0x54), CommandCode::GetChannelCipherSuites);
    assert_eq!(CommandCode::from(0x3b), CommandCode::SetSessionPrivilegeLevel);
    assert_eq!(CommandCode::from(0x3c), CommandCode::CloseSession);
    assert_eq!(CommandCode::from(0x23), CommandCode::Raw(0x23));
    for b in 0u8..=255 {
        assert_eq!(CommandCode::from(b).to_byte(), b);
    }
}

#[test]
fn net_functions() {
    assert_eq!(NetFn::from(0x06), NetFn::App);
    assert_eq!(NetFn::from(0x07), NetFn::App);
    assert_eq!(NetFn::from(0x0a), NetFn::Storage);
    assert_eq!(NetFn::from(0x0e), NetFn::Reserved);
    assert_eq!(NetFn::from(0x2b), NetFn::Reserved);
    assert_eq!(NetFn::from(0x2c), NetFn::Unknown(0x2c));
    assert_eq!(NetFn::App.to_byte(), 0x06);
    assert_eq!(NetFn::App.to_u8(CommandType::Request), 0x06);
    assert_eq!(NetFn::App.to_u8(CommandType::Response), 0x07);
    assert_eq!(NetFn::Reserved.to_u8(CommandType::Response), 0x2b);
    assert_eq!(NetFn::Unknown(0x30).to_u8(CommandType::Response), 0x30);
    assert_eq!(CommandType::from(4), CommandType::Request);
    assert_eq!(CommandType::from(5), CommandType::Response);
}

#[test]
fn netfn_lun_packing() {
    let packed = NetfnLun::new(0x06, Lun::Bmc);
    assert_eq!(packed.0, 0x18);
    assert_eq!(packed.netfn(), NetFn::App);
    assert_eq!(packed.lun(), Ok(Lun::Bmc));
    let other = NetfnLun::new(0x08, Lun::Oem2);
    assert_eq!(other.0, 0x23);
    assert_eq!(other.rqseq(), 0x08);
    assert_eq!(other.lun(), Ok(Lun::Oem2));
    assert_eq!(NetfnLun::from(0x1a).lun(), Ok(Lun::Sms));
}

#[test]
fn luns() {
    assert_eq!(Lun::new(0), Ok(Lun::Bmc));
    assert_eq!(Lun::new(3), Ok(Lun::Oem2));
    assert_eq!(Lun::new(4), Err(ECommand::UnknownLun(4)));
    assert_eq!(Lun::try_from(1), Ok(Lun::Oem1));
    assert_eq!(Lun::try_from(9), Err(Error::TryFromU8(9)));
    assert_eq!(Lun::Sms.to_byte(), 2);
}

#[test]
fn addresses() {
    assert_eq!(Address::from(0x20), Address::Slave(SlaveAddress::Bmc));
    assert_eq!(Address::from(0x22), Address::Slave(SlaveAddress::Unknown(0x22)));
    assert_eq!(
        Address::from(0x81),
        Address::Software(SoftwareType::RemoteConsoleSoftware(1))
    );
    assert_eq!(SoftwareType::from(0x05), SoftwareType::Bios);
    assert_eq!(SoftwareType::from(0x46), SoftwareType::RemoteConsoleSoftware(7));
    assert_eq!(SoftwareType::from(0x47), SoftwareType::TerminalModeRemoteConsole);
    assert_eq!(SoftwareType::from(0x48), SoftwareType::Reserved(0x48));
    assert_eq!(SlaveAddress::Bmc.to_byte(), 0x20);
}

#[test]
fn request_payload_bytes_and_checksums() {
    let request = ReqPayload::new(NetFn::App, CommandCode::GetChannelAuthCapabilities, vec![0x8e, 0x04]);
    let bytes = request.to_vec();
    assert_eq!(bytes, vec![0x20, 0x18, 0xc8, 0x81, 0x20, 0x38, 0x8e, 0x04, 0x95]);
    assert_eq!(bytes[2], checksum(&bytes[..2]));
    assert_eq!(bytes[8], checksum(&bytes[3..8]));
}

#[test]
fn request_payload_round_trip() {
    let request = ReqPayload::new(NetFn::Storage, CommandCode::Raw(0x23), vec![0, 0, 1, 0, 0, 0xff]);
    assert_eq!(ReqPayload::try_from(&request.to_vec()), Ok(request));
    let empty = ReqPayload::new(NetFn::Chassis, CommandCode::Raw(0x01), Vec::new());
    assert_eq!(empty.to_vec().len(), 7);
    assert_eq!(ReqPayload::try_from(&empty.to_vec()), Ok(empty));
}

#[test]
fn request_payload_parse_errors() {
    assert_eq!(
        ReqPayload::try_from(&[0x20, 0x18, 0xc8, 0x81, 0x20, 0x38]),
        Err(Error::Packet(EPacket::IpmiPayload(EIpmiPayload::WrongLength)))
    );
    assert_eq!(
        ReqPayload::try_from(&[0x20, 0x18, 0xc8, 0x81, 0x20, 0x38, 0x8e, 0x04, 0x96]),
        Err(Error::Packet(EPacket::IpmiPayload(EIpmiPayload::Checksum)))
    );
    assert_eq!(
        ReqPayload::try_from(&[0x20, 0x18, 0xc9, 0x81, 0x20, 0x38, 0x8e, 0x04, 0x95]),
        Err(Error::Packet(EPacket::IpmiPayload(EIpmiPayload::Checksum)))
    );
}

#[test]
fn request_default() {
    let d = ReqPayload::default();
    assert_eq!(d.command, CommandCode::GetChannelAuthCapabilities);
    assert_eq!(d.rqseq_rqlun.0, 0);
    assert_eq!(d.netfn_rslun.0, 0x18);
    assert!(d.data.is_empty());
}

#[test]
fn raw_request_packet() {
    let packet = IpmiRawRequest::new(NetFn::App, CommandCode::Raw(0x3b), vec![0x04]).create_packet();
    assert_eq!(packet.rmcp_header, RmcpHeader::default());
    assert_eq!(packet.ipmi_header, IpmiHeader::V2_0(IpmiV2Header::new_est(8)));
    assert_eq!(
        packet.payload,
        Payload::IpmiReq(ReqPayload::new(NetFn::App, CommandCode::Raw(0x3b), vec![0x04]))
    );
}

fn response_bytes(command: u8, code: u8, data: &[u8]) -> Vec<u8> {
    let mut bytes = vec![0x81, 0x1c];
    bytes.push(checksum(&[0x81, 0x1c]));
    let mut covered = vec![0x20, 0x20, command, code];
    covered.extend_from_slice(data);
    let second = checksum(&covered);
    bytes.extend_from_slice(&covered);
    bytes.push(second);
    bytes
}

#[test]
fn response_payload_parse() {
    let bytes = response_bytes(0x38, 0x00, &[1, 2, 3]);
    let response = RespPayload::try_from(&bytes).unwrap();
    assert_eq!(response.rq_addr, Address::Software(SoftwareType::RemoteConsoleSoftware(1)));
    assert_eq!(response.netfn_rqlun, NetfnLun(0x1c));
    assert_eq!(response.rs_addr, Address::Slave(SlaveAddress::Bmc));
    assert_eq!(response.rqseq_rslun, NetfnLun(0x20));
    assert_eq!(response.command, CommandCode::GetChannelAuthCapabilities);
    assert_eq!(response.completion_code, CompletionCode::CompletedNormally);
    assert_eq!(response.data, vec![1, 2, 3]);
    assert_eq!(response.payload_length(), 11);
    let no_data = RespPayload::try_from(&response_bytes(0x3c, 0xc1, &[])).unwrap();
    assert!(no_data.data.is_empty());
    assert_eq!(no_data.completion_code, CompletionCode::InvalidCommand);
    assert_eq!(no_data.payload_length(), 8);
}

#[test]
fn response_payload_errors() {
    assert_eq!(
        RespPayload::try_from(&[0x81, 0x1c, 0x63, 0x20, 0x20, 0x38, 0x00]),
        Err(Error::Packet(EPacket::IpmiPayload(EIpmiPayload::WrongLength)))
    );
    let mut bytes = response_bytes(0x38, 0x00, &[1, 2, 3]);
    let last = bytes.len() - 1;
    bytes[last] ^= 0x01;
    assert_eq!(
        RespPayload::try_from(&bytes),
        Err(Error::Packet(EPacket::IpmiPayload(EIpmiPayload::Checksum)))
    );
    let mut bytes = response_bytes(0x38, 0x00, &[1, 2, 3]);
    bytes[2] ^= 0x80;
    assert_eq!(
        RespPayload::try_from(&bytes),
        Err(Error::Packet(EPacket::IpmiPayload(EIpmiPayload::Checksum)))
    );
}

#[test]
fn algorithm_codes() {
    assert_eq!(AuthAlgorithm::try_from(1), Ok(AuthAlgorithm::RakpHmacSha1));
    assert_eq!(AuthAlgorithm::try_from(3), Ok(AuthAlgorithm::RakpHmacSha256));
    assert_eq!(AuthAlgorithm::try_from(0xc0), Ok(AuthAlgorithm::Oem(0xc0)));
    assert_eq!(
        AuthAlgorithm::try_from(4),
        Err(EIpmiPayload::Command(ECommand::UnknownAuthAlgorithm(4)))
    );
    assert_eq!(IntegrityAlgorithm::try_from(1), Ok(IntegrityAlgorithm::HmacSha196));
    assert_eq!(IntegrityAlgorithm::try_from(4), Ok(IntegrityAlgorithm::HmacSha256128));
    assert_eq!(
        IntegrityAlgorithm::try_from(5),
        Err(EIpmiPayload::Command(ECommand::UnknownIntegrityAlgorithm(5)))
    );
    assert_eq!(ConfidentialityAlgorithm::try_from(1), Ok(ConfidentialityAlgorithm::AesCbc128));
    assert_eq!(ConfidentialityAlgorithm::try_from(0x30), Ok(ConfidentialityAlgorithm::Oem(0x30)));
    assert_eq!(
        ConfidentialityAlgorithm::try_from(4),
        Err(EIpmiPayload::Command(ECommand::UnknownConfidentialityAlgorithm(4)))
    );
    assert_eq!(AuthAlgorithm::RakpHmacMd5.to_byte(), 2);
    assert_eq!(IntegrityAlgorithm::Md5128.to_byte(), 3);
    assert_eq!(ConfidentialityAlgorithm::XRc440.to_byte(), 3);
}

#[test]
fn status_and_privilege_codes() {
    assert_eq!(StatusCode::from(0), StatusCode::NoErrors);
    assert_eq!(StatusCode::from(0x0d), StatusCode::UnauthorizedName);
    assert_eq!(StatusCode::from(0x12), StatusCode::IllegalParameter);
    assert_eq!(StatusCode::from(0x13), StatusCode::Reserved(0x13));
    for b in 0u8..=255 {
        assert_eq!(StatusCode::from(b).to_byte(), b);
    }
    assert_eq!(Privilege::try_from(4), Ok(Privilege::Administrator));
    assert_eq!(
        Privilege::try_from(6),
        Err(EIpmiPayload::Command(ECommand::UnknownPrivilege(6)))
    );
    assert_eq!(Privilege::Operator.to_byte(), 3);
    assert_eq!(privilege(false, Privilege::Administrator), 0x14);
    assert_eq!(privilege(true, Privilege::Administrator), 0x04);
}

fn suite3_request() -> RMCPPlusOpenSessionRequest {
    RMCPPlusOpenSessionRequest::new(
        0,
        Privilege::Administrator,
        0xa0a2a3a4,
        AuthAlgorithm::RakpHmacSha1,
        IntegrityAlgorithm::HmacSha196,
        ConfidentialityAlgorithm::AesCbc128,
    )
}

#[test]
fn open_session_request_bytes_and_round_trip() {
    let request = suite3_request();
    let bytes = request.to_vec();
    assert_eq!(
        bytes,
        vec![
            0x00, 0x04, 0x00, 0x00, 0xa4, 0xa3, 0xa2, 0xa0, 0x00, 0x00, 0x00, 0x08, 0x01, 0x00,
            0x00, 0x00, 0x01, 0x00, 0x00, 0x08, 0x01, 0x00, 0x00, 0x00, 0x02, 0x00, 0x00, 0x08,
            0x01, 0x00, 0x00, 0x00
        ]
    );
    assert_eq!(RMCPPlusOpenSessionRequest::try_from(&bytes), Ok(request));
    let packet = request.to_packet();
    assert_eq!(
        packet.ipmi_header,
        IpmiHeader::V2_0(IpmiV2Header::new_pre(PayloadType::RmcpOpenSessionRequest, 32))
    );
    assert_eq!(packet.payload, Payload::Rmcp(RMCPPlusOpenSession::Request(request)));
    let datagram = packet.to_vec();
    assert_eq!(datagram.len(), 4 + 12 + 32);
    assert_eq!(&datagram[..6], &[0x06, 0x00, 0xff, 0x07, 0x06, 0x10]);
    assert_eq!(&datagram[16..], &bytes[..]);
}

#[test]
fn open_session_request_parse_errors() {
    let mut bytes = suite3_request().to_vec();
    assert_eq!(
        RMCPPlusOpenSessionRequest::try_from(&bytes[..31]),
        Err(Error::Packet(EPacket::IpmiPayload(EIpmiPayload::WrongLength)))
    );
    bytes[12] = 0x10;
    assert_eq!(
        RMCPPlusOpenSessionRequest::try_from(&bytes),
        Err(Error::Packet(EPacket::IpmiPayload(EIpmiPayload::Command(
            ECommand::UnknownAuthAlgorithm(0x10)
        ))))
    );
}

fn open_session_response_bytes(status: u8) -> Vec<u8> {
    let mut bytes = vec![0x00, status, 0x04, 0x00, 0xa4, 0xa3, 0xa2, 0xa0, 0x44, 0x33, 0x22, 0x11];
    bytes.extend_from_slice(&[0x00, 0x00, 0x00, 0x08, 0x01, 0x00, 0x00, 0x00]);
    bytes.extend_from_slice(&[0x01, 0x00, 0x00, 0x08, 0x01, 0x00, 0x00, 0x00]);
    bytes.extend_from_slice(&[0x02, 0x00, 0x00, 0x08, 0x01, 0x00, 0x00, 0x00]);
    bytes
}

#[test]
fn open_session_response_parse() {
    let response = RMCPPlusOpenSessionResponse::try_from(&open_session_response_bytes(0)).unwrap();
    assert_eq!(response.message_tag, 0);
    assert_eq!(response.rmcp_plus_status_code, StatusCode::NoErrors);
    assert_eq!(response.max_privilege, Privilege::Administrator);
    assert_eq!(response.remote_console_session_id, 0xa0a2a3a4);
    assert_eq!(response.managed_system_session_id, 0x11223344);
    assert_eq!(response.authentication_algorithm, AuthAlgorithm::RakpHmacSha1);
    assert_eq!(response.integrity_algorithm, IntegrityAlgorithm::HmacSha196);
    assert_eq!(response.confidentiality_algorithm, ConfidentialityAlgorithm::AesCbc128);
}

#[test]
fn open_session_response_refusal_is_short() {
    let refused =
        RMCPPlusOpenSessionResponse::try_from(&[0x07, 0x11, 0x00, 0x00, 0xa4, 0xa3, 0xa2, 0xa0])
            .unwrap();
    assert_eq!(refused.message_tag, 7);
    assert_eq!(refused.rmcp_plus_status_code, StatusCode::NoCipherSuiteMatch);
    assert_eq!(refused.remote_console_session_id, 0xa0a2a3a4);
    assert_eq!(refused.managed_system_session_id, 0);
    let shorter = RMCPPlusOpenSessionResponse::try_from(&[0x07, 0x01]).unwrap();
    assert_eq!(shorter.rmcp_plus_status_code, StatusCode::InsufficientResources);
    assert_eq!(shorter.remote_console_session_id, 0);
}

#[test]
fn open_session_response_errors() {
    assert_eq!(
        RMCPPlusOpenSessionResponse::try_from(&[0x00]),
        Err(Error::Packet(EPacket::IpmiPayload(EIpmiPayload::WrongLength)))
    );
    assert_eq!(
        RMCPPlusOpenSessionResponse::try_from(&open_session_response_bytes(0)[..32]),
        Err(Error::Packet(EPacket::IpmiPayload(EIpmiPayload::WrongLength)))
    );
    let mut bytes = open_session_response_bytes(0);
    bytes[2] = 0x09;
    assert_eq!(
        RMCPPlusOpenSessionResponse::try_from(&bytes),
        Err(Error::Packet(EPacket::IpmiPayload(EIpmiPayload::Command(
            ECommand::UnknownPrivilege(9)
        ))))
    );
    let mut bytes = open_session_response_bytes(0);
    bytes[24] = 0x09;
    assert_eq!(
        RMCPPlusOpenSessionResponse::try_from(&bytes),
        Err(Error::Packet(EPacket::IpmiPayload(EIpmiPayload::Command(
            ECommand::UnknownIntegrityAlgorithm(9)
        ))))
    );
    let mut bytes = open_session_response_bytes(0);
    bytes[32] = 0x09;
    assert_eq!(
        RMCPPlusOpenSessionResponse::try_from(&bytes),
        Err(Error::Packet(EPacket::IpmiPayload(EIpmiPayload::Command(
            ECommand::UnknownConfidentialityAlgorithm(9)
        ))))
    );
}

#[test]
fn rakp1_bytes_and_round_trip() {
    let message = RAKPMessage1::new(
        0,
        0x11223344,
        0x0102030405060708090a0b0c0d0e0f10,
        false,
        Privilege::Administrator,
        "admin".to_string(),
    )
    .unwrap();
    assert_eq!(message.username_length, 5);
    assert_eq!(message.request_role(), 0x14);
    let bytes = message.to_vec();
    assert_eq!(bytes.len(), 33);
    assert_eq!(&bytes[..8], &[0, 0, 0, 0, 0x44, 0x33, 0x22, 0x11]);
    assert_eq!(bytes[8], 0x10);
    assert_eq!(bytes[23], 0x01);
    assert_eq!(&bytes[24..28], &[0x14, 0, 0, 5]);
    assert_eq!(&bytes[28..], b"admin");
    assert_eq!(RAKPMessage1::try_from(&bytes), Ok(message.clone()));
    let packet = message.to_packet();
    assert_eq!(
        packet.ipmi_header,
        IpmiHeader::V2_0(IpmiV2Header::new_pre(PayloadType::RAKP1, 33))
    );
}

#[test]
fn rakp1_username_boundaries() {
    let empty =
        RAKPMessage1::new(1, 2, 3, true, Privilege::User, String::new()).unwrap();
    assert_eq!(empty.username_length, 0);
    assert_eq!(empty.to_vec().len(), 28);
    assert_eq!(empty.to_vec()[24], 0x02);
    assert_eq!(RAKPMessage1::try_from(&empty.to_vec()), Ok(empty));
    let sixteen =
        RAKPMessage1::new(1, 2, 3, false, Privilege::Operator, "0123456789abcdef".to_string())
            .unwrap();
    assert_eq!(sixteen.username_length, 16);
    assert_eq!(sixteen.to_vec().len(), 44);
    assert_eq!(RAKPMessage1::try_from(&sixteen.to_vec()), Ok(sixteen));
    assert_eq!(
        RAKPMessage1::new(1, 2, 3, false, Privilege::Operator, "0123456789abcdefg".to_string()),
        Err(Error::Client(EClient::UsernameTooLong))
    );
    assert_eq!(
        RAKPMessage1::with_name(1, 2, 3, false, Privilege::Operator, &[0x61; 17]),
        Err(Error::Client(EClient::UsernameTooLong))
    );
}

#[test]
fn rakp1_parse_errors() {
    assert_eq!(
        RAKPMessage1::try_from(&[0; 27]),
        Err(Error::Packet(EPacket::IpmiPayload(EIpmiPayload::WrongLength)))
    );
    let mut bytes = vec![0u8; 28];
    bytes[27] = 2;
    assert_eq!(
        RAKPMessage1::try_from(&bytes),
        Err(Error::Packet(EPacket::IpmiPayload(EIpmiPayload::WrongLength)))
    );
    let mut long = vec![0u8; 28 + 17];
    long[27] = 17;
    assert_eq!(RAKPMessage1::try_from(&long), Err(Error::Client(EClient::UsernameTooLong)));
    let mut bad_role = vec![0u8; 28];
    bad_role[24] = 0x17;
    assert_eq!(
        RAKPMessage1::try_from(&bad_role),
        Err(Error::Packet(EPacket::IpmiPayload(EIpmiPayload::Command(
            ECommand::UnknownPrivilege(7)
        ))))
    );
}

#[test]
fn rakp2_lengths() {
    let mut bytes = vec![0x00, 0x00, 0x00, 0x00, 0xa4, 0xa3, 0xa2, 0xa0];
    let refused = RAKPMessage2::try_from(&[0x00, 0x0d, 0x00, 0x00, 0xa4, 0xa3, 0xa2, 0xa0]).unwrap();
    assert_eq!(refused.status_code, StatusCode::UnauthorizedName);
    assert_eq!(refused.console_id, 0xa0a2a3a4);
    assert_eq!(refused.managed_rnd_number, 0);
    assert_eq!(refused.key_exchange_auth_code, None);
    bytes.extend_from_slice(&[0x11; 16]);
    bytes.extend_from_slice(&[0x22; 16]);
    let without_code = RAKPMessage2::try_from(&bytes).unwrap();
    assert_eq!(without_code.managed_rnd_number, 0x11111111_11111111_11111111_11111111);
    assert_eq!(without_code.managed_guid, 0x22222222_22222222_22222222_22222222);
    assert_eq!(without_code.key_exchange_auth_code, None);
    bytes.extend_from_slice(&[0x33; 20]);
    let full = RAKPMessage2::try_from(&bytes).unwrap();
    assert_eq!(full.key_exchange_auth_code, Some([0x33; 20]));
    assert_eq!(
        RAKPMessage2::try_from(&bytes[..7]),
        Err(Error::Packet(EPacket::IpmiPayload(EIpmiPayload::Command(
            ECommand::NotEnoughData(ECommandCode::new(CommandCode::Raw(1), 8, 7))
        ))))
    );
    assert_eq!(
        RAKPMessage2::try_from(&bytes[..59]),
        Err(Error::Packet(EPacket::IpmiPayload(EIpmiPayload::WrongLength)))
    );
}

#[test]
fn rakp3_bytes_and_round_trip() {
    let message = RAKPMessage3::new(0, StatusCode::NoErrors, 0x11223344, Some(vec![0xab; 20]));
    let bytes = message.to_vec();
    assert_eq!(bytes.len(), 28);
    assert_eq!(&bytes[..8], &[0, 0, 0, 0, 0x44, 0x33, 0x22, 0x11]);
    assert_eq!(&bytes[8..], &[0xab; 20]);
    assert_eq!(RAKPMessage3::try_from(&bytes), Ok(message.clone()));
    let packet = message.to_packet();
    assert_eq!(
        packet.ipmi_header,
        IpmiHeader::V2_0(IpmiV2Header::new_pre(PayloadType::RAKP3, 28))
    );
    let bare = RAKPMessage3::new(5, StatusCode::InvalidIntegrityCheckValue, 9, None);
    assert_eq!(bare.to_vec(), vec![5, 0x0f, 0, 0, 9, 0, 0, 0]);
    assert_eq!(RAKPMessage3::try_from(&bare.to_vec()), Ok(bare));
    assert_eq!(
        RAKPMessage3::try_from(&[0; 7]),
        Err(Error::Packet(EPacket::IpmiPayload(EIpmiPayload::WrongLength)))
    );
}

#[test]
fn rakp4_lengths() {
    let mut bytes = vec![0x00, 0x00, 0x00, 0x00, 0xa4, 0xa3, 0xa2, 0xa0];
    let bare = RAKPMessage4::try_from(&bytes).unwrap();
    assert_eq!(bare.integrity_auth_code, None);
    assert_eq!(bare.console_id, 0xa0a2a3a4);
    bytes.extend_from_slice(&[0x5a; 12]);
    let full = RAKPMessage4::try_from(&bytes).unwrap();
    assert_eq!(full.integrity_auth_code, Some([0x5a; 12]));
    bytes.push(0);
    assert_eq!(
        RAKPMessage4::try_from(&bytes),
        Err(Error::Packet(EPacket::IpmiPayload(EIpmiPayload::WrongLength)))
    );
    assert_eq!(
        RAKPMessage4::try_from(&bytes[..3]),
        Err(Error::Packet(EPacket::IpmiPayload(EIpmiPayload::Command(
            ECommand::NotEnoughData(ECommandCode::new(CommandCode::Raw(3), 8, 3))
        ))))
    );
}

#[test]
fn payload_outbound_and_bytes() {
    let request = Payload::IpmiReq(ReqPayload::new(NetFn::App, CommandCode::CloseSession, vec![1, 2, 3, 4]));
    assert!(request.is_outbound());
    assert_eq!(request.to_vec().len(), 11);
    assert_eq!(request.command(), Some(CommandCode::CloseSession));
    assert!(Payload::Empty.is_outbound());
    assert!(Payload::Empty.to_vec().is_empty());
    assert_eq!(Payload::Empty.command(), None);
    let response = Payload::IpmiResp(RespPayload::try_from(&response_bytes(0x01, 0xc0, &[9])).unwrap());
    assert!(!response.is_outbound());
    assert_eq!(response.data_and_completion(), (vec![9], CompletionCode::NodeBusy));
    assert_eq!(Payload::Empty.data_and_completion(), (Vec::new(), CompletionCode::CompletedNormally));
    let rakp2 = Payload::Rakp(Rakp::Message2(
        RAKPMessage2::try_from(&[0x00, 0x0d, 0x00, 0x00, 0xa4, 0xa3, 0xa2, 0xa0]).unwrap(),
    ));
    assert!(!rakp2.is_outbound());
}

fn datagram(payload_type: u8, payload: &[u8]) -> Vec<u8> {
    let mut bytes = vec![0x06, 0x00, 0xff, 0x07, 0x06, payload_type, 0, 0, 0, 0, 0, 0, 0, 0];
    bytes.push((payload.len() % 256) as u8);
    bytes.push((payload.len() / 256) as u8);
    bytes.extend_from_slice(payload);
    bytes
}

#[test]
fn packet_parse_by_payload_type() {
    let response = Packet::try_from(&datagram(0x00, &response_bytes(0x38, 0, &[1, 2, 3, 4, 5, 6, 7, 8]))).unwrap();
    assert_eq!(response.rmcp_header, RmcpHeader::default());
    assert_eq!(response.ipmi_header.payload_len(), 16);
    assert!(matches!(response.payload, Payload::IpmiResp(_)));
    let open = Packet::try_from(&datagram(0x11, &open_session_response_bytes(0))).unwrap();
    assert!(matches!(open.payload, Payload::Rmcp(RMCPPlusOpenSession::Response(_))));
    let mut rakp2 = vec![0x00, 0x00, 0x00, 0x00, 0xa4, 0xa3, 0xa2, 0xa0];
    rakp2.extend_from_slice(&[0; 52]);
    let second = Packet::try_from(&datagram(0x13, &rakp2)).unwrap();
    assert!(matches!(second.payload, Payload::Rakp(Rakp::Message2(_))));
    let fourth = Packet::try_from(&datagram(0x15, &rakp2[..20])).unwrap();
    assert!(matches!(fourth.payload, Payload::Rakp(Rakp::Message4(_))));
}

#[test]
fn packet_parse_errors() {
    assert_eq!(Packet::try_from(&[0; 19]), Err(Error::Packet(EPacket::WrongLength)));
    let mut bad_auth = datagram(0x00, &response_bytes(0x38, 0, &[]));
    bad_auth[4] = 0x09;
    assert_eq!(
        Packet::try_from(&bad_auth),
        Err(Error::Packet(EPacket::IpmiHeader(EIpmiHeader::UnsupportedAuthType(9))))
    );
    let mut bad_class = datagram(0x00, &response_bytes(0x38, 0, &[]));
    bad_class[3] = 0x01;
    assert_eq!(
        Packet::try_from(&bad_class),
        Err(Error::Packet(EPacket::RmcpHeader(ERMCPHeader::UnsupportedMessageClass(1))))
    );
    let mut too_long = datagram(0x00, &response_bytes(0x38, 0, &[]));
    too_long[14] = 200;
    assert_eq!(Packet::try_from(&too_long), Err(Error::Packet(EPacket::WrongLength)));
    let request_type = datagram(0x10, &suite3_request().to_vec());
    assert_eq!(Packet::try_from(&request_type), Err(Error::Packet(EPacket::Unknown)));
    let mut bad_sum = datagram(0x00, &response_bytes(0x38, 0, &[1]));
    let last = bad_sum.len() - 1;
    bad_sum[last] ^= 0xff;
    assert_eq!(
        Packet::try_from(&bad_sum),
        Err(Error::Packet(EPacket::IpmiPayload(EIpmiPayload::Checksum)))
    );
}

#[test]
fn packet_without_payload() {
    let mut bytes = datagram(0x13, &[]);
    bytes.extend_from_slice(&[0; 4]);
    let packet = Packet::try_from(&bytes).unwrap();
    assert_eq!(packet.payload, Payload::Empty);
    let default = Packet::default();
    assert_eq!(default.payload, Payload::Empty);
    assert_eq!(default.to_vec(), vec![0x06, 0, 0xff, 0x07, 0, 0, 0, 0, 0, 0, 0, 0, 0, 0]);
}

#[test]
fn packet_session_fields() {
    let mut packet = IpmiRawRequest::new(NetFn::App, CommandCode::Raw(1), Vec::new()).create_packet();
    packet.set_session_id(0x11223344);
    packet.set_session_seq_num(9);
    match packet.ipmi_header {
        IpmiHeader::V2_0(h) => {
            assert_eq!(h.rmcp_plus_session_id, 0x11223344);
            assert_eq!(h.session_seq_number, 9);
        }
        _ => panic!("v2 header expected"),
    }
    let mut old = Packet::default();
    old.set_session_id(5);
    old.set_session_seq_num(5);
    assert_eq!(old, Packet::default());
}
