use rust_ipmi::helpers::{checksum, u8_ms_bit};
use rust_ipmi::rmcp::ipmi::storage::sdr::SensorOwner;

#[test]
fn utils_position() {
    assert!(u8_ms_bit(0b1, 7));
    assert!(!u8_ms_bit(0b1, 6));
    assert!(!u8_ms_bit(0b10, 7));
    assert!(u8_ms_bit(0b10, 6));

    assert!(u8_ms_bit(0b1000_0000, 0));
    assert!(!u8_ms_bit(0b1000_0000, 7));
}

#[test]
fn lib_position() {
    assert!(rust_ipmi::u8_ms_bit(0b1, 7));
    assert!(!rust_ipmi::u8_ms_bit(0b1, 6));
    assert!(!rust_ipmi::u8_ms_bit(0b10, 7));
    assert!(rust_ipmi::u8_ms_bit(0b10, 6));

    assert!(rust_ipmi::u8_ms_bit(0b1000_0000, 0));
    assert!(!rust_ipmi::u8_ms_bit(0b1000_0000, 7));
}

#[test]
fn test_sensor_owner_round_trip() {
    for x in 0u8..=255u8 {
        let o = SensorOwner::from(x);
        let value: u8 = o.into();
        assert_eq!(x, value);
    }
}

#[test]
fn checksum_of_capabilities_request() {
    assert_eq!(checksum(&[0x20, 0x18]), 0xC8);
    assert_eq!(checksum(&[0x81, 0x20, 0x38, 0x8E, 0x04]), 0x95);
}

#[test]
fn checksum_makes_the_sum_a_multiple_of_256() {
    let data = [0x20u8, 0x18, 0xff, 0x01, 0x7f];
    let sum: u32 = data.iter().map(|b| *b as u32).sum::<u32>() + checksum(&data) as u32;
    assert_eq!(sum % 256, 0);
    assert_eq!(checksum(&[]), 0);
    assert_eq!(checksum(&[0x00]), 0);
    assert_eq!(checksum(&[0x01]), 0xff);
    assert_eq!(checksum(&[0x80, 0x80]), 0);
}
