use rust_ipmi::err::{ECommand, ECommandCode, EIpmiPayload, EPacket, EParse, Error};
use rust_ipmi::rmcp::header::RmcpHeader;
use rust_ipmi::rmcp::ipmi::commands::{
    AllocInfo, AnonStatus, AuthVersion, BootOpt, ChassisControl, CommandCode, GetAllocInfo,
    GetChannelAuthCapabilitiesRequest, GetChannelAuthCapabilitiesResponse,
    GetChannelCipherSuitesRequest, GetChannelCipherSuitesResponse, GetChassisStatus,
    GetDeviceSdrCommand, GetSDRRepositoryInfo, GetSelEntry, GetSelInfo, GetSensorReading,
    PowerState, Privilege, ReserveSDRRepositoryCommand, ThresholdReading, KG,
};
use rust_ipmi::rmcp::ipmi::header::v2::{IpmiV2Header, PayloadType};
use rust_ipmi::rmcp::ipmi::header::{AuthType, IpmiHeader};
use rust_ipmi::rmcp::ipmi::payload::lun::Lun;
use rust_ipmi::rmcp::ipmi::payload::netfn::{NetFn, NetfnLun};
use rust_ipmi::rmcp::ipmi::payload::request::ReqPayload;
use rust_ipmi::rmcp::ipmi::raw::IpmiRawCommand;
use rust_ipmi::rmcp::ipmi::storage::sdr::{
    Address, Channel, ChannelNumber, CompactSensorRecord, Direction, EntityInstance,
    EntityRelativeTo, EventKind, EventReading, EventReadingTypeCodes, FullSensorRecord,
    HysteresisCapability, Linearization, ModifierUnit, RateUnit, RecordContents, RecordId,
    SdrRecord, SensorCapabilities, SensorId, SensorInitialization, SensorKey, SensorNumber,
    SensorOwner, SensorRecord, SensorRecordCommon, SensorType, SensorUnits,
    ThresholdAccessCapability, ThresholdAssertEventMask, ThresholdKind, Thresholds, Unit,
};
use rust_ipmi::rmcp::ipmi::storage::sel::constant::{
    generic_event_desc, generic_key, sensor_specific_event_desc, specific_key,
};
use rust_ipmi::rmcp::ipmi::storage::sel::{
    Entry, EventDirection, EventGenerator, EventMessageRevision, EventType,
};
use rust_ipmi::rmcp::ipmi::{CompletionCode, IpmiCommand};
use rust_ipmi::rmcp::packet::Payload;

fn parse_failure(what: EParse) -> Error {
    Error::Packet(EPacket::IpmiPayload(EIpmiPayload::Command(ECommand::Parse(what))))
}

fn short(command: CommandCode, expected: u8, got: usize) -> Error {
    Error::Packet(EPacket::IpmiPayload(EIpmiPayload::Command(ECommand::NotEnoughData(
        ECommandCode::new(command, expected, got),
    ))))
}

fn common_part() -> Vec<u8> {
    vec![
        0x20, 0x14, 0x05, 0x07, 0x81, 0xd5, 0x68, 0x01, 0x01, 0x85, 0x7a, 0x03, 0x40, 0x3f, 0x15,
        0x0a, 0x01, 0x12,
    ]
}

fn full_record_data(name: &[u8]) -> Vec<u8> {
    let mut data = common_part();
    let mut body = vec![0u8; 24];
    body[0] = 0x07;
    body[5] = 0x01;
    body[23] = 0xee;
    data.extend_from_slice(&body);
    data.push(0xc0 | name.len() as u8);
    data.extend_from_slice(name);
    data
}

fn compact_record_data(name: &[u8]) -> Vec<u8> {
    let mut data = common_part();
    data.extend_from_slice(&[0x80, 1, 2, 3, 4, 5, 6, 7]);
    data.push(0x40 | name.len() as u8);
    data.extend_from_slice(name);
    data
}

fn record(record_type: u8, data: &[u8]) -> Vec<u8> {
    let mut bytes = vec![0x34, 0x12, 0x51, record_type, data.len() as u8];
    bytes.extend_from_slice(data);
    bytes
}

#[test]
fn channel_numbers() {
    assert!(ChannelNumber::new(0).is_none());
    assert_eq!(ChannelNumber::new(1).unwrap().value(), 1);
    assert_eq!(ChannelNumber::new(0xb).unwrap().value(), 0xb);
    assert!(ChannelNumber::new(0xc).is_none());
    assert_eq!(Channel::new(0), Some(Channel::Primary));
    assert_eq!(Channel::new(0xe), Some(Channel::Current));
    assert_eq!(Channel::new(0xf), Some(Channel::System));
    assert_eq!(Channel::new(7).unwrap().value(), 7);
    assert_eq!(Channel::new(0xc), None);
    assert_eq!(Channel::new(0xd), None);
    assert_eq!(Channel::new(0x10), None);
    assert_eq!(Channel::Primary.value(), 0);
    assert_eq!(Channel::Current.value(), 0xe);
    assert_eq!(Channel::System.value(), 0xf);
}

#[test]
fn sensor_numbers_and_owners() {
    assert_eq!(SensorNumber::new(0).unwrap().get(), 0);
    assert_eq!(SensorNumber::new(0xfe).unwrap().get(), 0xfe);
    assert!(SensorNumber::new(0xff).is_none());
    assert_eq!(SensorOwner::of_byte(0x20), SensorOwner::I2C(0x10));
    assert_eq!(SensorOwner::of_byte(0x41), SensorOwner::System(0x20));
    assert_eq!(SensorOwner::I2C(0x10).to_byte(), 0x20);
    assert_eq!(SensorOwner::System(0x20).to_byte(), 0x41);
    assert_eq!(SensorOwner::System(0xa0).to_byte(), 0x41);
}

#[test]
fn sensor_key_parse() {
    let key = SensorKey::parse(&[0x20, 0x19, 0x05]).unwrap();
    assert_eq!(key.owner_id, SensorOwner::I2C(0x10));
    assert_eq!(key.owner_channel.value(), 1);
    assert_eq!(key.fru_inv_device_owner_lun, Lun::Sms);
    assert_eq!(key.owner_lun, Lun::Oem1);
    assert_eq!(key.sensor_number.get(), 5);
    assert_eq!(
        SensorKey::parse(&[0x20, 0x19]),
        Err(parse_failure(EParse::SensorKeyLength))
    );
    assert_eq!(
        SensorKey::parse(&[0x20, 0x19, 0x05, 0x00]),
        Err(parse_failure(EParse::SensorKeyLength))
    );
    assert_eq!(
        SensorKey::parse(&[0x20, 0xc0, 0x05]),
        Err(parse_failure(EParse::SensorChannelReserved))
    );
    assert_eq!(
        SensorKey::parse(&[0x20, 0x10, 0xff]),
        Err(parse_failure(EParse::SensorNumberReserved))
    );
}

#[test]
fn sensor_id_encodings() {
    assert_eq!(SensorId::from(0xc3, b"abcdef"), SensorId::Ascii8BAndLatin1(b"abc".to_vec()));
    assert_eq!(SensorId::from(0x05, b"ab"), SensorId::Unicode(b"ab".to_vec()));
    assert_eq!(SensorId::from(0x42, &[0x12, 0x34, 0x56]), SensorId::BCDPlus(vec![0x12, 0x34]));
    assert_eq!(SensorId::from(0x81, &[0x7f]), SensorId::Ascii6BPacked(vec![0x7f]));
    assert_eq!(SensorId::from(0xc0, b"abc"), SensorId::Ascii8BAndLatin1(Vec::new()));
    assert_eq!(SensorId::default(), SensorId::Unicode(Vec::new()));
    assert_eq!(SensorId::from(0xc3, b"abcdef").bytes(), &b"abc".to_vec());
}

#[test]
fn linearizations_and_directions() {
    assert_eq!(Linearization::from(0), Linearization::Linear);
    assert_eq!(Linearization::from(8), Linearization::Sqr);
    assert_eq!(Linearization::from(9), Linearization::Sqrt);
    assert_eq!(Linearization::from(10), Linearization::Cube);
    assert_eq!(Linearization::from(11), Linearization::Sqrt);
    assert_eq!(Linearization::from(12), Linearization::CubeRoot);
    assert_eq!(Linearization::from(0x71), Linearization::Oem(0x71));
    assert_eq!(Linearization::from(0x7f), Linearization::Oem(0x7f));
    assert_eq!(Linearization::from(0x70), Linearization::Unknown(0x70));
    assert_eq!(Linearization::from(13), Linearization::Unknown(13));
    assert_eq!(Direction::try_from(0), Ok(Direction::UnspecifiedNotApplicable));
    assert_eq!(Direction::try_from(1), Ok(Direction::Input));
    assert_eq!(Direction::try_from(2), Ok(Direction::Output));
    assert_eq!(Direction::try_from(3), Err(()));
}

#[test]
fn sensor_units() {
    let units = SensorUnits::from(0b0001_1011, 0x12, 0x04);
    assert_eq!(units.rate, Some(RateUnit::Second));
    assert_eq!(units.modifier, Some(ModifierUnit::BasUnitDivByModifier(Unit(0x04))));
    assert!(units.is_percentage);
    assert_eq!(units.base_unit, Unit(0x12));
    let plain = SensorUnits::from(0b0011_1100, 1, 2);
    assert_eq!(plain.rate, None);
    assert_eq!(plain.modifier, Some(ModifierUnit::BaseUnitMulByModifier(Unit(2))));
    assert!(!plain.is_percentage);
    assert_eq!(SensorUnits::from(0, 1, 2).rate, None);
    assert_eq!(SensorUnits::from(0b0011_0110, 1, 2).rate, Some(RateUnit::Day));
    assert_eq!(SensorUnits::from(0b0000_1000, 1, 2).rate, Some(RateUnit::Microsecond));
    assert_eq!(SensorUnits::from(0b0000_0110, 1, 2).modifier, None);
    assert_eq!(Unit::from(4), Unit(4));
    assert_eq!(SensorType::from(1).to_byte(), 1);
}

#[test]
fn event_reading_type_codes() {
    assert_eq!(EventReadingTypeCodes::from(0x00), EventReadingTypeCodes::Unspecified);
    assert_eq!(EventReadingTypeCodes::from(0x01), EventReadingTypeCodes::Threshold);
    assert_eq!(
        EventReadingTypeCodes::from(0x02),
        EventReadingTypeCodes::DiscreteGeneric(EventReading::UsageState)
    );
    assert_eq!(
        EventReadingTypeCodes::from(0x0c),
        EventReadingTypeCodes::DiscreteGeneric(EventReading::AcpiDevicePowerState)
    );
    assert_eq!(EventReadingTypeCodes::from(0x0d), EventReadingTypeCodes::Reserved(0x0d));
    assert_eq!(EventReadingTypeCodes::from(0x6f), EventReadingTypeCodes::SensorSpecific);
    assert_eq!(EventReadingTypeCodes::from(0x70), EventReadingTypeCodes::Oem(0x70));
    assert_eq!(EventReadingTypeCodes::from(0x80), EventReadingTypeCodes::Reserved(0x80));
    assert_eq!(EventReading::try_from(0x01), Err(()));
    assert_eq!(EventReading::try_from(0x0a), Ok(EventReading::PowerState));
    for code in 0x02u8..=0x0c {
        assert_eq!(EventReading::try_from(code).unwrap().to_byte(), code);
    }
}

#[test]
fn sensor_initialization_and_entity() {
    let init = SensorInitialization::from(0b1101_0101);
    assert!(init.settable && init.scanning && !init.events && init.thresholds);
    assert!(init.hysteresis && init.sensor_type);
    assert!(!init.event_generation_enabled_on_startup);
    assert!(init.sensor_scanning_enabled_on_startup);
    let none = SensorInitialization::from(0b0000_1000);
    assert!(!none.hysteresis && !none.thresholds && !none.settable);
    assert_eq!(
        EntityInstance::from(0x05),
        EntityInstance::Physical { relative: EntityRelativeTo::System, instance_number: 5 }
    );
    assert_eq!(
        EntityInstance::from(0x5f),
        EntityInstance::Physical { relative: EntityRelativeTo::System, instance_number: 0x5f }
    );
    assert_eq!(
        EntityInstance::from(0x60),
        EntityInstance::Physical { relative: EntityRelativeTo::Device, instance_number: 0x60 }
    );
    assert_eq!(
        EntityInstance::from(0xe1),
        EntityInstance::LogicalContainer {
            relative: EntityRelativeTo::Device,
            instance_number: 0x61
        }
    );
}

#[test]
fn threshold_event_mask() {
    let mask = ThresholdAssertEventMask::from_bits_truncate(0xf0a5);
    assert_eq!(mask.bits, 0x00a5);
    assert!(mask.contains(ThresholdAssertEventMask::LOWER_NON_CRITICAL_GOING_LOW));
    assert!(!mask.contains(ThresholdAssertEventMask::LOWER_NON_CRITICAL_GOING_HIGH));
    assert_eq!(mask.for_kind(ThresholdKind::LowerNonCritical), vec![EventKind::GoingLow]);
    assert_eq!(mask.for_kind(ThresholdKind::LowerCritical), vec![EventKind::GoingLow]);
    assert_eq!(mask.for_kind(ThresholdKind::LowerNonRecoverable), vec![EventKind::GoingHigh]);
    assert_eq!(mask.for_kind(ThresholdKind::UpperNonCritical), vec![EventKind::GoingHigh]);
    assert_eq!(mask.for_kind(ThresholdKind::UpperCritical), Vec::<EventKind>::new());
    let both = ThresholdAssertEventMask::from_bits_truncate(0x0c00);
    assert_eq!(
        both.for_kind(ThresholdKind::UpperNonRecoverable),
        vec![EventKind::GoingHigh, EventKind::GoingLow]
    );
    assert_eq!(ThresholdAssertEventMask::UPPER_NON_RECOVERABLE_GOING_HIGH, 1 << 11);
    assert_eq!(ThresholdAssertEventMask::UPPER_CRITICAL_GOING_LOW, 1 << 8);
    assert_eq!(ThresholdAssertEventMask::LOWER_CRITICAL_GOING_HIGH, 1 << 3);
}

#[test]
fn threshold_kinds() {
    assert_eq!(
        ThresholdKind::variants(),
        vec![
            ThresholdKind::LowerNonCritical,
            ThresholdKind::LowerCritical,
            ThresholdKind::LowerNonRecoverable,
            ThresholdKind::UpperNonCritical,
            ThresholdKind::UpperCritical,
            ThresholdKind::UpperNonRecoverable,
        ]
    );
    let flags = Thresholds {
        lower_non_recoverable: true,
        lower_critical: false,
        lower_non_critical: true,
        upper_non_recoverable: false,
        upper_critical: true,
        upper_non_critical: false,
    };
    assert!(flags.for_kind(ThresholdKind::LowerNonRecoverable));
    assert!(!flags.for_kind(ThresholdKind::LowerCritical));
    assert!(flags.for_kind(ThresholdKind::LowerNonCritical));
    assert!(!flags.for_kind(ThresholdKind::UpperNonRecoverable));
    assert!(flags.for_kind(ThresholdKind::UpperCritical));
    assert!(!flags.for_kind(ThresholdKind::UpperNonCritical));
}

#[test]
fn sensor_capabilities() {
    let caps = SensorCapabilities::new(0b1100_1010, 0x7005, 0x4003, 0x2a15);
    assert!(caps.ignore);
    assert!(caps.auto_rearm);
    assert_eq!(caps.event_message_control, 2);
    assert_eq!(caps.hysteresis, HysteresisCapability::ReadableAndSettable);
    assert_eq!(caps.assertion_threshold_events.bits, 0x0005);
    assert_eq!(caps.deassertion_threshold_events.bits, 0x0003);
    match caps.threshold_access {
        ThresholdAccessCapability::ReadableAndSettable { readable, values, settable } => {
            assert!(readable.lower_non_critical && !readable.lower_critical);
            assert!(readable.lower_non_recoverable && !readable.upper_non_critical);
            assert!(readable.upper_critical && !readable.upper_non_recoverable);
            assert!(!settable.lower_non_critical && settable.lower_critical);
            assert!(!settable.lower_non_recoverable && settable.upper_non_critical);
            assert!(!settable.upper_critical && settable.upper_non_recoverable);
            assert!(values.lower_non_recoverable && values.lower_critical);
            assert!(values.lower_non_critical);
            assert!(values.upper_non_recoverable && values.upper_critical);
            assert!(values.upper_non_critical);
        }
        _ => panic!("readable and settable thresholds expected"),
    }
    assert!(caps.threshold_access.readable(ThresholdKind::LowerNonCritical));
    assert!(!caps.threshold_access.readable(ThresholdKind::LowerCritical));
    assert!(caps.threshold_access.settable(ThresholdKind::LowerCritical));
    assert!(!caps.threshold_access.settable(ThresholdKind::LowerNonCritical));
    let none = SensorCapabilities::new(0x00, 0, 0, 0xffff);
    assert_eq!(none.threshold_access, ThresholdAccessCapability::NoThresholds);
    assert_eq!(none.hysteresis, HysteresisCapability::NoneOrUnspecified);
    assert!(!none.threshold_access.readable(ThresholdKind::UpperCritical));
    let readable = SensorCapabilities::new(0x05, 0, 0, 0x0001);
    assert_eq!(readable.hysteresis, HysteresisCapability::Readable);
    assert!(readable.threshold_access.readable(ThresholdKind::LowerNonCritical));
    assert!(!readable.threshold_access.settable(ThresholdKind::LowerNonCritical));
    let fixed = SensorCapabilities::new(0x0f, 0, 0, 0x0020);
    assert_eq!(fixed.hysteresis, HysteresisCapability::FixedAndUnreadable);
    assert!(matches!(
        fixed.threshold_access,
        ThresholdAccessCapability::FixedAndUnreadable { supported } if supported.upper_non_recoverable
    ));
    assert!(!fixed.threshold_access.readable(ThresholdKind::UpperNonRecoverable));
}

#[test]
fn common_part_of_a_sensor_record() {
    let (common, rest) = SensorRecordCommon::parse_without_id(&full_record_data(b"Inlet")).unwrap();
    assert_eq!(rest, 18);
    assert_eq!(common.key.sensor_number.get(), 5);
    assert_eq!(common.key.owner_channel.value(), 1);
    assert_eq!(common.key.fru_inv_device_owner_lun, Lun::Oem1);
    assert_eq!(common.entity_id, 7);
    assert_eq!(
        common.entity_instance,
        EntityInstance::LogicalContainer { relative: EntityRelativeTo::System, instance_number: 1 }
    );
    assert_eq!(common.initialization, SensorInitialization::from(0xd5));
    assert_eq!(common.capabilities, SensorCapabilities::new(0x68, 0x7a85, 0x4003, 0x153f));
    assert_eq!(common.sensor_type, SensorType(1));
    assert_eq!(common.event_reading_type_code, EventReadingTypeCodes::Threshold);
    assert_eq!(common.sensor_units, SensorUnits::from(0x0a, 0x01, 0x12));
    assert_eq!(common.sensor_id, SensorId::default());
    let named = common.set_id(SensorId::Unicode(b"x".to_vec()));
    assert_eq!(named.sensor_id, SensorId::Unicode(b"x".to_vec()));
    assert_eq!(named.entity_id, 7);
    assert_eq!(
        SensorRecordCommon::parse_without_id(&common_part()[..17]).err(),
        Some(parse_failure(EParse::SensorRecordCommonLength))
    );
    let mut reserved = common_part();
    reserved[2] = 0xff;
    assert_eq!(
        SensorRecordCommon::parse_without_id(&reserved).err(),
        Some(parse_failure(EParse::SensorNumberReserved))
    );
}

#[test]
fn full_sensor_record() {
    let full = FullSensorRecord::parse(&full_record_data(b"Inlet Temp")).unwrap();
    assert_eq!(full.id_string(), &SensorId::Ascii8BAndLatin1(b"Inlet Temp".to_vec()));
    assert_eq!(full.linearization, Linearization::OneOverX);
    assert_eq!(full.direction(), Direction::Input);
    assert_eq!(full.body.len(), 24);
    assert_eq!(full.body[23], 0xee);
    assert_eq!(full.sensor_number().get(), 5);
    assert_eq!(full.entity_id(), 7);
    assert_eq!(full.key_data().owner_id, SensorOwner::I2C(0x10));
    assert_eq!(full.capabilities(), &SensorCapabilities::new(0x68, 0x7a85, 0x4003, 0x153f));
    assert_eq!(full.common().sensor_type, SensorType(1));
    let data = full_record_data(b"");
    assert_eq!(
        FullSensorRecord::parse(&data[..data.len() - 1]).err(),
        Some(parse_failure(EParse::SensorRecordLength))
    );
    let mut reserved = full_record_data(b"x");
    reserved[18 + 5] = 0x03;
    assert_eq!(
        FullSensorRecord::parse(&reserved).err(),
        Some(parse_failure(EParse::SensorDirectionReserved))
    );
    assert_eq!(
        FullSensorRecord::parse(&[0; 10]).err(),
        Some(parse_failure(EParse::SensorRecordCommonLength))
    );
}

#[test]
fn compact_sensor_record() {
    let compact = CompactSensorRecord::parse(&compact_record_data(&[0x12, 0x34])).unwrap();
    assert_eq!(compact.id_string(), &SensorId::BCDPlus(vec![0x12, 0x34]));
    assert_eq!(compact.direction(), Direction::Output);
    assert_eq!(compact.body, vec![0x80, 1, 2, 3, 4, 5, 6, 7]);
    assert_eq!(compact.sensor_number().get(), 5);
    let data = compact_record_data(b"");
    assert_eq!(
        CompactSensorRecord::parse(&data[..data.len() - 1]).err(),
        Some(parse_failure(EParse::SensorRecordLength))
    );
    let mut reserved = compact_record_data(b"x");
    reserved[18] = 0xc0;
    assert_eq!(
        CompactSensorRecord::parse(&reserved).err(),
        Some(parse_failure(EParse::SensorDirectionReserved))
    );
}

#[test]
fn sdr_records() {
    let command = CommandCode::Raw(0x23);
    let full = SdrRecord::parse(&record(0x01, &full_record_data(b"Fan1")), command).unwrap();
    assert_eq!(full.header.id, RecordId::new_raw(0x1234));
    assert_eq!(full.header.sdr_version_major, 1);
    assert_eq!(full.header.sdr_version_minor, 5);
    assert!(full.full_sensor().is_some());
    assert!(full.compact_sensor().is_none());
    assert_eq!(full.id(), Some(&SensorId::Ascii8BAndLatin1(b"Fan1".to_vec())));
    assert_eq!(full.sensor_number().map(|n| n.get()), Some(5));
    assert_eq!(full.common_data().map(|c| c.entity_id), Some(7));
    let compact = SdrRecord::parse(&record(0x02, &compact_record_data(b"ab")), command).unwrap();
    assert!(compact.compact_sensor().is_some());
    assert!(compact.full_sensor().is_none());
    assert_eq!(compact.id(), Some(&SensorId::BCDPlus(b"ab".to_vec())));
    let unknown = SdrRecord::parse(&record(0x11, &[1, 2, 3]), command).unwrap();
    assert!(matches!(
        &unknown.contents,
        RecordContents::Unknown { ty: 0x11, data } if data == &vec![1, 2, 3]
    ));
    assert_eq!(unknown.id(), None);
    assert_eq!(unknown.sensor_number(), None);
    assert!(unknown.common_data().is_none());
    let empty = SdrRecord::parse(&record(0xc0, &[]), command).unwrap();
    assert!(matches!(&empty.contents, RecordContents::Unknown { ty: 0xc0, data } if data.is_empty()));
}

#[test]
fn sdr_record_errors() {
    let command = CommandCode::Raw(0x77);
    assert_eq!(
        SdrRecord::parse(&[1, 2, 3, 4], command).err(),
        Some(short(command, 5, 4))
    );
    let mut wrong_length = record(0x11, &[1, 2, 3]);
    wrong_length[4] = 4;
    assert_eq!(
        SdrRecord::parse(&wrong_length, command).err(),
        Some(short(CommandCode::Raw(0x23), 4, 8))
    );
    assert_eq!(
        SdrRecord::parse(&record(0x01, &[0; 10]), command).err(),
        Some(parse_failure(EParse::SensorRecordCommonLength))
    );
}

#[test]
fn record_identifiers() {
    assert!(RecordId::first().is_first());
    assert!(!RecordId::first().is_last());
    assert!(RecordId::last().is_last());
    assert_eq!(RecordId::last().value(), 0xffff);
    assert_eq!(RecordId::new_raw(7).value(), 7);
    assert!(!RecordId::new_raw(7).is_first());
}

#[test]
fn event_types() {
    assert_eq!(EventType::from(0x00), EventType::Unspecified(0));
    assert_eq!(EventType::from(0x01), EventType::Threshold(1));
    assert_eq!(EventType::from(0x02), EventType::Generic(2));
    assert_eq!(EventType::from(0x0c), EventType::Generic(0x0c));
    assert_eq!(EventType::from(0x0d), EventType::Unknown(0x0d));
    assert_eq!(EventType::from(0x6f), EventType::SensorSpecific(0x6f));
    assert_eq!(EventType::from(0x7f), EventType::Oem(0x7f));
    assert_eq!(EventMessageRevision::from(0x04), EventMessageRevision::V2_0);
    assert_eq!(EventMessageRevision::from(0x03), EventMessageRevision::V1_0);
    assert_eq!(EventMessageRevision::from(0x05), EventMessageRevision::Unknown(5));
    assert_eq!(
        EventGenerator::from(0x20, 0x12),
        EventGenerator::RqSAAndLun { i2c_addr: 0x10, channel_number: 1, lun: Lun::Sms }
    );
    assert_eq!(
        EventGenerator::from(0x41, 0xf3),
        EventGenerator::SoftwareId { software_id: 0x20, channel_number: 0xf }
    );
}

#[test]
fn event_descriptions() {
    assert_eq!(generic_key(0x01, 0x09), 0x0109);
    assert_eq!(specific_key(0x05, 0x01, 0xff, 0xff), 0x0501ffff);
    assert_eq!(generic_event_desc(0x0100), Some("Lower Non-critical - going low"));
    assert_eq!(generic_event_desc(0x0c03), Some("D3 Power State"));
    assert_eq!(generic_event_desc(0x0d00), None);
    assert_eq!(sensor_specific_event_desc(0x0500ffff), Some("General Chassis Intrusion"));
    assert_eq!(sensor_specific_event_desc(0x2c07ffff), Some("FRU Communication Lost"));
    assert_eq!(sensor_specific_event_desc(0x0500ff00), None);
    assert_eq!(
        EventType::Threshold(1).description(1, &[0x59, 0, 0]),
        "Upper Critical - going high"
    );
    assert_eq!(EventType::Generic(3).description(1, &[0x01, 0, 0]), "State Asserted");
    assert_eq!(EventType::Generic(3).description(1, &[0x05, 0, 0]), "generic unknown");
    assert_eq!(
        EventType::SensorSpecific(0x6f).description(0x05, &[0x00, 0x12, 0x34]),
        "General Chassis Intrusion"
    );
    assert_eq!(
        EventType::SensorSpecific(0x6f).description(0x05, &[0xf0, 0x12, 0x34]),
        "General Chassis Intrusion"
    );
    assert_eq!(
        EventType::SensorSpecific(0x6f).description(0xf0, &[0x00, 0, 0]),
        "specific not found"
    );
    assert_eq!(EventType::Oem(0x70).description(1, &[0, 0, 0]), "oem");
    assert_eq!(EventType::Unknown(0x0d).description(1, &[0, 0, 0]), "other unknown");
    assert_eq!(EventType::Unspecified(0).description(1, &[0, 0, 0]), "other unknown");
}

#[test]
fn event_numbers() {
    assert_eq!(EventType::Threshold(1).data_to_u32(1, &[0x59, 0, 0]), 0x0109);
    assert_eq!(EventType::Generic(0x0b).data_to_u32(1, &[0x02, 0, 0]), 0x0b02);
    assert_eq!(
        EventType::SensorSpecific(0x6f).data_to_u32(0x05, &[0xf1, 0x12, 0x34]),
        0x0501ffff
    );
    assert_eq!(EventType::SensorSpecific(0x6f).data_to_u32(0xf0, &[0, 0, 0]), 0);
    assert_eq!(EventType::Oem(0x71).data_to_u32(1, &[0, 0, 0]), 0x71);
    assert_eq!(EventType::Unknown(0x0d).data_to_u32(1, &[0, 0, 0]), 0x0d);
    assert_eq!(EventType::specific_key_found(0x05, &[0x00, 0, 0]), Some(0x0500ffff));
    assert_eq!(EventType::specific_key_found(0xf0, &[0x00, 0, 0]), None);
}

fn system_entry() -> Vec<u8> {
    vec![
        0x02, 0x01, 0x02, 0x04, 0x03, 0x02, 0x01, 0x20, 0x00, 0x04, 0x01, 0x30, 0x81, 0x59, 0x5a,
        0x5b,
    ]
}

#[test]
fn sel_entries() {
    let entry = Entry::parse(&system_entry()).unwrap();
    assert_eq!(entry.id(), 0x0102);
    match entry {
        Entry::System {
            timestamp,
            generator_id,
            event_message_format,
            sensor_type,
            sensor_number,
            event_direction,
            event_type,
            event_data,
            ..
        } => {
            assert_eq!(timestamp, 0x01020304);
            assert_eq!(
                generator_id,
                EventGenerator::RqSAAndLun { i2c_addr: 0x10, channel_number: 0, lun: Lun::Bmc }
            );
            assert_eq!(event_message_format, EventMessageRevision::V2_0);
            assert_eq!(sensor_type, SensorType(1));
            assert_eq!(sensor_number, 0x30);
            assert_eq!(event_direction, EventDirection::Deassert);
            assert_eq!(event_type, EventType::Threshold(1));
            assert_eq!(event_data, [0x59, 0x5a, 0x5b]);
        }
        _ => panic!("system event expected"),
    }
    assert_eq!(entry.description_with_assetion(), ("Upper Critical - going high", false));
    let mut asserted = system_entry();
    asserted[12] = 0x01;
    assert_eq!(
        Entry::parse(&asserted).unwrap().description_with_assetion(),
        ("Upper Critical - going high", true)
    );
    let mut oem = system_entry();
    oem[2] = 0xc5;
    let timestamped = Entry::parse(&oem).unwrap();
    assert_eq!(timestamped.id(), 0);
    assert!(matches!(
        timestamped,
        Entry::OemTimestamped { ty: 0xc5, timestamp: 0x01020304, manufacturer_id: 0x040020, data, .. }
            if data == [0x01, 0x30, 0x81, 0x59, 0x5a, 0x5b]
    ));
    assert_eq!(timestamped.description_with_assetion(), ("unreacheable", false));
    oem[2] = 0xe0;
    assert!(matches!(
        Entry::parse(&oem).unwrap(),
        Entry::OemNotTimestamped { ty: 0xe0, data, .. }
            if data == [0x04, 0x03, 0x02, 0x01, 0x20, 0x00, 0x04, 0x01, 0x30, 0x81, 0x59, 0x5a, 0x5b]
    ));
}

#[test]
fn sel_entry_errors() {
    assert_eq!(
        Entry::parse(&system_entry()[..15]).err(),
        Some(short(CommandCode::Raw(0x43), 16, 15))
    );
    let mut unknown = system_entry();
    unknown[2] = 0x03;
    assert_eq!(
        Entry::parse(&unknown).err(),
        Some(Error::Packet(EPacket::IpmiPayload(EIpmiPayload::Command(
            ECommand::UnknownRecordType(3)
        ))))
    );
    unknown[2] = 0xbf;
    assert!(Entry::parse(&unknown).is_err());
}

fn request_of(payload: Payload) -> ReqPayload {
    match payload {
        Payload::IpmiReq(request) => request,
        _ => panic!("request expected"),
    }
}

#[test]
fn chassis_commands() {
    assert_eq!(GetChassisStatus.netfn(), NetFn::Chassis);
    assert_eq!(GetChassisStatus.command(), CommandCode::Raw(0x01));
    assert!(request_of(GetChassisStatus.payload()).data.is_empty());
    assert_eq!(
        GetChassisStatus.parse(&[1, 2, 3]).err(),
        Some(short(CommandCode::Raw(0x01), 14, 3))
    );
    let status = GetChassisStatus.parse(&[0x20, 2, 3, 4]).unwrap();
    assert_eq!(status.p_state, PowerState::Off);
    assert_eq!(status.front_control_panel, 4);
    assert_eq!(PowerState::from(0x01).description(), "Power is on");
    assert_eq!(PowerState::from(0xfe).description(), "Power is off");
    assert_eq!(ChassisControl::PowerCycle.to_u8(), 2);
    assert_eq!(ChassisControl::PowerAcpiSoft.to_u8(), 5);
    assert_eq!(ChassisControl::PowerDown.command(), CommandCode::Raw(0x02));
    assert_eq!(request_of(ChassisControl::PowerHardReset.payload()).data, vec![3]);
    assert_eq!(ChassisControl::PowerUp.parse(&[]), Ok(()));
    assert_eq!(BootOpt::Pxe.command(), CommandCode::Raw(0x08));
    assert_eq!(BootOpt::Pxe.netfn(), NetFn::Chassis);
    assert_eq!(request_of(BootOpt::Pxe.payload()).data, vec![0x05, 0x80, 0x04, 0, 0, 0]);
    assert_eq!(BootOpt::HardDisk.options(), [0x05, 0x80, 0xc0, 0, 0, 0]);
    assert_eq!(BootOpt::HardDisk.parse(&[9]), Ok(()));
}

#[test]
fn repository_commands() {
    assert_eq!(GetSDRRepositoryInfo.netfn(), NetFn::Storage);
    assert_eq!(GetSDRRepositoryInfo.command(), CommandCode::Raw(0x20));
    let info = GetSDRRepositoryInfo.parse(&[0x51, 0x2a, 0x01, 0, 0, 0, 0, 0, 0, 0, 0, 0, 0, 0]).unwrap();
    assert_eq!(info.sdr_version, 0x51);
    assert_eq!(info.record_count, 0x012a);
    assert_eq!(
        GetSDRRepositoryInfo.parse(&[0; 13]).err(),
        Some(short(CommandCode::Raw(0x20), 14, 13))
    );
    assert_eq!(ReserveSDRRepositoryCommand.command(), CommandCode::Raw(0x22));
    assert_eq!(ReserveSDRRepositoryCommand.parse(&[0x34, 0x12]).unwrap().reservation_id, 0x1234);
    assert_eq!(
        ReserveSDRRepositoryCommand.parse(&[0x34]).err(),
        Some(short(CommandCode::Raw(0x22), 2, 1))
    );
    assert_eq!(GetAllocInfo.command(), CommandCode::Raw(0x21));
    assert_eq!(
        GetAllocInfo.parse(&[0, 0, 0x10, 0, 0x05, 0, 0x03, 0, 0x40]),
        Ok(AllocInfo {
            num_alloc_units: None,
            alloc_unit_size: Some(16),
            num_free_units: 5,
            largest_free_blk: 3,
            max_record_size: 0x40
        })
    );
    assert_eq!(
        GetAllocInfo.parse(&[0; 8]).err(),
        Some(short(CommandCode::Raw(0x21), 9, 8))
    );
}

#[test]
fn device_sdr_command() {
    let command = GetDeviceSdrCommand::new(Some(0x1234), RecordId::new_raw(0x0102));
    assert_eq!(command.command(), CommandCode::Raw(0x23));
    assert_eq!(request_of(command.payload()).data, vec![0x34, 0x12, 0x02, 0x01, 0x00, 0xff]);
    let unreserved = GetDeviceSdrCommand::new(None, RecordId::first());
    assert_eq!(request_of(unreserved.payload()).data, vec![0, 0, 0, 0, 0, 0xff]);
    let mut data = vec![0xff, 0xff];
    data.extend_from_slice(&record(0x01, &full_record_data(b"CPU")));
    let info = command.parse(&data).unwrap();
    assert!(info.next_entry.is_last());
    assert_eq!(info.record.id(), Some(&SensorId::Ascii8BAndLatin1(b"CPU".to_vec())));
    assert_eq!(command.parse(&[0x01]).err(), Some(short(CommandCode::Raw(0x23), 2, 1)));
    assert_eq!(command.parse(&[0x01, 0x00, 0x05]).err(), Some(short(CommandCode::Raw(0x23), 5, 1)));
}

#[test]
fn sensor_reading_command() {
    let key = SensorKey::parse(&[0x20, 0x10, 0x07]).unwrap();
    let command = GetSensorReading::form_sensor_key(&key);
    assert_eq!(command.address, Address(0x20));
    assert_eq!(command.channel.value(), 1);
    assert_eq!(command.netfn(), NetFn::SensorEvent);
    assert_eq!(command.command(), CommandCode::Raw(0x2d));
    assert_eq!(request_of(command.payload()).data, vec![7]);
    let other = GetSensorReading::new(SensorNumber::new(9).unwrap(), Address(1), Channel::Primary);
    assert_eq!(request_of(other.payload()).data, vec![9]);
    let raw = command.parse(&[0x42, 0xc0, 0x39, 0x01]).unwrap();
    assert_eq!(raw.reading, 0x42);
    assert!(!raw.all_event_messages_disabled);
    assert!(!raw.scanning_disabled);
    assert!(!raw.reading_or_state_unavailable);
    assert_eq!(raw.offset_data_1, Some(0x39));
    assert_eq!(raw.offset_data_2, Some(0x01));
    let reading = ThresholdReading::from(&raw);
    assert_eq!(reading.reading, Some(0x42));
    let status = reading.threshold_status.unwrap();
    assert!(status.at_or_above_non_recoverable);
    assert!(status.at_or_above_upper_critical);
    assert!(status.at_or_above_upper_non_critical);
    assert!(!status.at_or_below_lower_non_recoverable);
    assert!(status.at_or_below_lower_critical);
    assert!(status.at_or_below_lower_non_critical);
    let unavailable = command.parse(&[0x42, 0x20]).unwrap();
    assert!(unavailable.all_event_messages_disabled);
    assert!(unavailable.scanning_disabled);
    assert!(unavailable.reading_or_state_unavailable);
    assert_eq!(unavailable.offset_data_1, None);
    let nothing = ThresholdReading::from(&unavailable);
    assert_eq!(nothing.reading, None);
    assert_eq!(nothing.threshold_status, None);
    let bare = ThresholdReading::from(&command.parse(&[1, 0xc0]).unwrap());
    assert_eq!(bare.reading, Some(1));
    assert_eq!(bare.threshold_status, None);
    assert_eq!(command.parse(&[1]).err(), Some(parse_failure(EParse::RawSensorReadingLength)));
}

#[test]
fn sel_commands() {
    assert_eq!(GetSelInfo.command(), CommandCode::Raw(0x40));
    assert_eq!(GetSelInfo.netfn(), NetFn::Storage);
    let info = GetSelInfo
        .parse(&[0x51, 0x10, 0x00, 0x20, 0x03, 1, 0, 0, 0, 2, 0, 0, 0, 0x8a])
        .unwrap();
    assert_eq!(info.sel_version, 0x51);
    assert_eq!(info.entries, 16);
    assert_eq!(info.free_space, 0x0320);
    assert_eq!(info.last_add_time, 1);
    assert_eq!(info.last_del_time, 2);
    assert!(!info.support_alloc_info && info.support_reserve);
    assert!(!info.support_partial_add && info.support_delete && info.overflow);
    assert_eq!(GetSelInfo.parse(&[0; 13]).err(), Some(short(CommandCode::Raw(0x40), 14, 13)));
    let command = GetSelEntry::new(0, 0x0102, 3);
    assert_eq!(command.command(), CommandCode::Raw(0x43));
    assert_eq!(request_of(command.payload()).data, vec![0, 0, 0x02, 0x01, 3, 0xff]);
    let mut data = vec![0x03, 0x00];
    data.extend_from_slice(&system_entry());
    let record = command.parse(&data).unwrap();
    assert_eq!(record.next_record_id, [0x03, 0x00]);
    assert_eq!(record.entry, Entry::parse(&system_entry()).unwrap());
    assert_eq!(record.raw_data, data);
    assert_eq!(command.parse(&[1]).err(), Some(short(CommandCode::Raw(0x43), 2, 1)));
    assert_eq!(command.parse(&[1, 2, 3]).err(), Some(short(CommandCode::Raw(0x43), 16, 1)));
}

#[test]
fn capabilities_command() {
    let request = GetChannelAuthCapabilitiesRequest::new(true, 0x0e, Privilege::Administrator);
    assert_eq!(request.to_vec(), vec![0x8e, 0x04]);
    assert_eq!(
        GetChannelAuthCapabilitiesRequest::new(false, 0x1f, Privilege::User).to_vec(),
        vec![0x0f, 0x02]
    );
    let packet = request.create_packet();
    assert_eq!(packet.rmcp_header, RmcpHeader::default());
    assert_eq!(
        packet.ipmi_header,
        IpmiHeader::V2_0(IpmiV2Header::new(AuthType::RmcpPlus, false, false, PayloadType::Ipmi, 0, 0, 9))
    );
    assert_eq!(
        request_of(packet.payload),
        ReqPayload::new(NetFn::App, CommandCode::GetChannelAuthCapabilities, vec![0x8e, 0x04])
    );
    let response =
        GetChannelAuthCapabilitiesResponse::try_from(&[0x01, 0xb7, 0x2d, 0x02, 0x11, 0x22, 0x33, 0x44])
            .unwrap();
    assert_eq!(response.channel_number, 1);
    assert_eq!(response.auth_version, AuthVersion::IpmiV2);
    assert_eq!(
        response.auth_type,
        vec![AuthType::Oem, AuthType::PasswordOrKey, AuthType::MD5, AuthType::MD2, AuthType::NoAuth]
    );
    assert_eq!(response.kg_status, KG::NonZero);
    assert!(!response.per_message_auth);
    assert!(!response.user_level_auth);
    assert_eq!(response.anon_login.non_null_username, AnonStatus::Enabled);
    assert_eq!(response.anon_login.null_username, AnonStatus::Disabled);
    assert_eq!(response.anon_login.anonymous_login, AnonStatus::Enabled);
    assert_eq!(response.channel_extended_cap, AuthVersion::IpmiV2);
    assert_eq!(response.oem_id, 0x33221100);
    assert_eq!(response.oem_aux_data, 0x44);
    let old = GetChannelAuthCapabilitiesResponse::try_from(&[0x01, 0x04, 0x10, 0x01, 0, 0, 0, 0]).unwrap();
    assert_eq!(old.auth_version, AuthVersion::IpmiV1_5);
    assert_eq!(old.auth_type, vec![AuthType::MD5]);
    assert_eq!(old.kg_status, KG::Defualt);
    assert!(old.per_message_auth);
    assert!(old.user_level_auth);
    assert_eq!(old.channel_extended_cap, AuthVersion::IpmiV1_5);
    assert_eq!(
        GetChannelAuthCapabilitiesResponse::try_from(&[0; 9]).err(),
        Some(Error::Packet(EPacket::IpmiPayload(EIpmiPayload::WrongLength)))
    );
}

#[test]
fn cipher_suites_command() {
    let request = GetChannelCipherSuitesRequest::default();
    assert_eq!(request.channel_number, 0x0e);
    assert_eq!(request.to_vec(), vec![0x0e, 0x00, 0x80]);
    let other = GetChannelCipherSuitesRequest::new(0x13, PayloadType::RAKP1, false, 0x45);
    assert_eq!(other.to_vec(), vec![0x03, 0x12, 0x05]);
    let packet = request.create_packet();
    assert_eq!(
        packet.ipmi_header,
        IpmiHeader::V2_0(IpmiV2Header::new_pre(PayloadType::Ipmi, 10))
    );
    assert_eq!(
        request_of(packet.payload),
        ReqPayload::new(NetFn::App, CommandCode::GetChannelCipherSuites, vec![0x0e, 0x00, 0x80])
    );
    let part = GetChannelCipherSuitesResponse::try_from(&[1, 0xc0, 3, 1, 0x41, 0x81]).unwrap();
    assert_eq!(part.channel_number, 1);
    assert_eq!(part.cypher_suite_record_data_bytes, vec![0xc0, 3, 1, 0x41, 0x81]);
    assert!(part.is_last());
    let mut full = vec![1];
    full.extend_from_slice(&[0; 16]);
    assert!(!GetChannelCipherSuitesResponse::try_from(&full).unwrap().is_last());
    assert_eq!(
        GetChannelCipherSuitesResponse::try_from(&[1]).err(),
        Some(Error::Packet(EPacket::IpmiPayload(EIpmiPayload::WrongLength)))
    );
}

#[test]
fn raw_command() {
    let command = IpmiRawCommand {
        rs_addr: rust_ipmi::rmcp::ipmi::payload::bmc::Address::from(0x20),
        netfn_rslun: NetfnLun::new(0x0a, Lun::Bmc),
        rq_addr: rust_ipmi::rmcp::ipmi::payload::bmc::Address::from(0x81),
        rqseq_rqlun: NetfnLun::new(0x08, Lun::Bmc),
        command: CommandCode::Raw(0x10),
        data: Some(vec![1, 2]),
    };
    assert_eq!(command.netfn(), NetFn::Storage);
    assert_eq!(command.command(), CommandCode::Raw(0x10));
    assert_eq!(
        request_of(command.payload()),
        ReqPayload::new(NetFn::Storage, CommandCode::Raw(0x10), vec![1, 2])
    );
    let bytes = vec![0x81, 0x2c, 0x53, 0x20, 0x20, 0x10, 0xc0, 0x07, 0xe9];
    let response = command.parse(&bytes).unwrap();
    assert_eq!(response.command, CommandCode::Raw(0x10));
    assert_eq!(response.completion_code, CompletionCode::NodeBusy);
    assert_eq!(response.data, vec![0x07]);
    assert_eq!(
        command.parse(&bytes[..7]).err(),
        Some(Error::Packet(EPacket::IpmiPayload(EIpmiPayload::WrongLength)))
    );
}
