//! The J1939 payload bitfields.

use isotp_rs::can::j1939::payload::{DataField, NameField};
use isotp_rs::can::j1939::Conversion;

#[test]
fn test_data_bitfield() {
    let data_a = DataField::from_hex("FFFF82DF1AFFFFFF").unwrap();
    let be_bytes_a: [u8; 8] = [0xFF, 0xFF, 0x82, 0xDF, 0x1A, 0xFF, 0xFF, 0xFF];
    let le_bytes_a: [u8; 8] = [0xFF, 0xFF, 0xFF, 0x1A, 0xDF, 0x82, 0xFF, 0xFF];

    assert_eq!(data_a.byte_2(), 0x82);

    assert_eq!(be_bytes_a, data_a.to_be_bytes());
    assert_eq!(le_bytes_a, data_a.to_le_bytes());

    assert_eq!(18446606493475143679, data_a.into_bits());

    assert_eq!(DataField(18446743089616977919), data_a.to_be());
    assert_eq!(DataField(18446606493475143679), data_a.to_le());
}

#[test]
fn test_name_bitfield() {
    let name_a = NameField::new()
        .with_arbitrary_address_bits(true)
        .with_industry_group_bits(0)
        .with_vehicle_system_instance_bits(0x5)
        .with_vehicle_system_bits(0x6)
        .with_reserved_bits(false)
        .with_function_bits(0x5)
        .with_function_instance_bits(0x2)
        .with_ecu_instance_bits(0x1)
        .with_manufacturer_code_bits(0x122)
        .with_identity_number_bits(0xB0309);

    let bytes_a: [u8; 8] = [0x09, 0x03, 0x4B, 0x24, 0x11, 0x05, 0x0C, 0x85];
    let name_a_bytes = name_a.into_bits().to_le_bytes();

    assert_eq!(bytes_a, name_a_bytes);
}

#[test]
fn test_name_field_getters() {
    let name = NameField::new()
        .with_arbitrary_address_bits(true)
        .with_industry_group_bits(0x3)
        .with_vehicle_system_instance_bits(0x5)
        .with_vehicle_system_bits(0x66)
        .with_reserved_bits(false)
        .with_function_bits(0xA5)
        .with_function_instance_bits(0x12)
        .with_ecu_instance_bits(0x1)
        .with_manufacturer_code_bits(0x7AB)
        .with_identity_number_bits(0x1B0309);
    assert!(name.arbitrary_address());
    assert_eq!(name.industry_group(), 0x3);
    assert_eq!(name.vehicle_system_instance(), 0x5);
    assert_eq!(name.vehicle_system(), 0x66);
    assert!(!name.reserved());
    assert_eq!(name.function(), 0xA5);
    assert_eq!(name.function_instance(), 0x12);
    assert_eq!(name.ecu_instance(), 0x1);
    assert_eq!(name.manufacturer_code(), 0x7AB);
    assert_eq!(name.identity_number(), 0x1B0309);
}

#[test]
fn test_data_field_bytes_and_ne() {
    let d = DataField(0x0123_4567_89AB_CDEF);
    assert_eq!(d.byte_0(), 0x01);
    assert_eq!(d.byte_1(), 0x23);
    assert_eq!(d.byte_3(), 0x67);
    assert_eq!(d.byte_7(), 0xEF);
    // native-endian bytes equal one of the two fixed orders
    let ne = d.to_ne_bytes();
    assert!(ne == d.to_le_bytes() || ne == d.to_be_bytes());
    // exactly one of to_le/to_be is a no-op on any target
    assert!((d.to_le() == d) != (d.to_be() == d));
    // the byte orders agree with the raw value
    assert_eq!(u64::from_be_bytes(d.to_be_bytes()), d.into_bits());
    assert_eq!(u64::from_le_bytes(d.to_le_bytes()), d.into_bits());
}

#[test]
fn test_data_field_hex() {
    assert_eq!(DataField::from_hex("XYZ"), None);
    let d = DataField::from_hex("1F").unwrap();
    assert_eq!(d.into_bits(), 0x1F);
    assert_eq!(d.into_hex(), "000000000000001F");
    assert_eq!(NameField::from_bits(0xFF).into_hex(), "00000000000000FF");
}
