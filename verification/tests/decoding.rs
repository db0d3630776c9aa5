//! Tests for the power-unit decoder and the topology-attribute parser.

use ryzen_reader::error::Error;
use ryzen_reader::topology::parse_package_id;
use ryzen_reader::msr::register_value_from_le;
use ryzen_reader::units::decode_units;

#[test]
fn decode_fixed_pattern() {
    // The fixed bit pattern decodes to one exact exponent triple.
    let u = decode_units(0x00A2E19);
    assert_eq!(u.time, 0xA);
    assert_eq!(u.energy, 0xE);
    assert_eq!(u.power, 0x9);
    // The scaling factors derived from the exponents are exact
    // floating-point values.
    assert_eq!(0.5f64.powi(u.time as i32), 0.0009765625);
    assert_eq!(0.5f64.powi(u.energy as i32), 0.00006103515625);
    assert_eq!(0.5f64.powi(u.power as i32), 0.001953125);
}

#[test]
fn decode_is_deterministic() {
    let raw: u64 = 0x00A2E19;
    assert_eq!(decode_units(raw), decode_units(raw));
    let other: u64 = 0xFFFF_FFFF_FFFF_FFFF;
    assert_eq!(decode_units(other), decode_units(other));
}

#[test]
fn decoded_units_lie_in_unit_interval() {
    for raw in [0u64, 1, 0x00A2E19, 0xFFFF_FFFF_FFFF_FFFF, 0x12345, 0xF0F0F] {
        let u = decode_units(raw);
        for exp in [u.time, u.energy, u.power] {
            let unit = 0.5f64.powi(exp as i32);
            assert!(0.0 < unit);
            assert!(unit <= 1.0);
        }
    }
}

#[test]
fn decode_masks_fields() {
    // All bits set outside the three fields leave the exponents at zero.
    let u = decode_units(!(0xF0000u64 | 0x1F00 | 0xF));
    assert_eq!(u.time, 0);
    assert_eq!(u.energy, 0);
    assert_eq!(u.power, 0);
    // Field maxima.
    let m = decode_units(0xF0000u64 | 0x1F00 | 0xF);
    assert_eq!(m.time, 15);
    assert_eq!(m.energy, 31);
    assert_eq!(m.power, 15);
}

#[test]
fn parse_nul_padded_attribute() {
    // A newline-terminated, NUL-padded attribute is a clean integer.
    assert_eq!(parse_package_id(b"2\n\x00\x00").unwrap(), 2);
}

#[test]
fn parse_plain_and_padded_integers() {
    assert_eq!(parse_package_id(b"0").unwrap(), 0);
    assert_eq!(parse_package_id(b"17\n").unwrap(), 17);
    assert_eq!(parse_package_id(b" 42 ").unwrap(), 42);
    assert_eq!(parse_package_id(b"+5\n\x00").unwrap(), 5);
    assert_eq!(parse_package_id(b"4294967295").unwrap(), u32::MAX);
}

#[test]
fn parse_rejects_unclean_content() {
    assert!(matches!(parse_package_id(b""), Err(Error::InvalidPackage)));
    assert!(matches!(parse_package_id(b"\x00\x00\x00\x00"), Err(Error::InvalidPackage)));
    assert!(matches!(parse_package_id(b"\n \t"), Err(Error::InvalidPackage)));
    assert!(matches!(parse_package_id(b"+"), Err(Error::InvalidPackage)));
    assert!(matches!(parse_package_id(b"12a4"), Err(Error::InvalidPackage)));
    assert!(matches!(parse_package_id(b"-1"), Err(Error::InvalidPackage)));
    assert!(matches!(parse_package_id(b"4294967296"), Err(Error::InvalidPackage)));
    // A NUL that is not trailing padding is not trimmed away.
    assert!(matches!(parse_package_id(b"2\x00\n"), Err(Error::InvalidPackage)));
}

#[test]
fn register_bytes_read_little_endian() {
    let bytes = [0x19, 0x2E, 0x0A, 0x00, 0x00, 0x00, 0x00, 0x00];
    assert_eq!(register_value_from_le(&bytes), 0x00A2E19);
    let all = [0x01, 0x02, 0x03, 0x04, 0x05, 0x06, 0x07, 0x08];
    assert_eq!(register_value_from_le(&all), u64::from_le_bytes(all));
    assert_eq!(register_value_from_le(&[0xFF; 8]), u64::MAX);
}

#[test]
fn io_failures_classify_by_kind() {
    let denied = std::io::Error::from(std::io::ErrorKind::PermissionDenied);
    assert!(matches!(Error::from_io(denied), Error::PermissionDenied));
    let absent = std::io::Error::from(std::io::ErrorKind::NotFound);
    assert!(matches!(Error::from_io(absent), Error::CoreNotFound));
    let other = std::io::Error::from(std::io::ErrorKind::UnexpectedEof);
    match Error::from_io(other) {
        Error::IO(cause) => assert_eq!(cause.kind(), std::io::ErrorKind::UnexpectedEof),
        e => panic!("wrong classification: {:?}", e),
    }
}
