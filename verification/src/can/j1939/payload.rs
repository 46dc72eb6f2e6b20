//! J1939 payload bitfields: the 8-byte data field and the NAME field.

use vstd::prelude::*;
use vstd::endian::Endian;
use vstd::endian::endianness;
use vstd::string::StringSliceAdditionalSpecFns;

use crate::can::j1939::Conversion;
use crate::hexstr;

verus! {

/// The little-endian bytes of a 64-bit value.
pub open spec fn spec_u64_le_bytes(x: u64) -> Seq<u8> {
    seq![
        (x & 0xFF) as u8,
        ((x >> 8) & 0xFF) as u8,
        ((x >> 16) & 0xFF) as u8,
        ((x >> 24) & 0xFF) as u8,
        ((x >> 32) & 0xFF) as u8,
        ((x >> 40) & 0xFF) as u8,
        ((x >> 48) & 0xFF) as u8,
        ((x >> 56) & 0xFF) as u8,
    ]
}

/// The big-endian bytes of a 64-bit value.
pub open spec fn spec_u64_be_bytes(x: u64) -> Seq<u8> {
    seq![
        ((x >> 56) & 0xFF) as u8,
        ((x >> 48) & 0xFF) as u8,
        ((x >> 40) & 0xFF) as u8,
        ((x >> 32) & 0xFF) as u8,
        ((x >> 24) & 0xFF) as u8,
        ((x >> 16) & 0xFF) as u8,
        ((x >> 8) & 0xFF) as u8,
        (x & 0xFF) as u8,
    ]
}

/// A 64-bit value with its bytes reversed.
pub open spec fn spec_u64_swap_bytes(x: u64) -> u64 {
    ((x & 0xFF) << 56) | (((x >> 8) & 0xFF) << 48) | (((x >> 16) & 0xFF) << 40) | (((x >> 24)
        & 0xFF) << 32) | (((x >> 32) & 0xFF) << 24) | (((x >> 40) & 0xFF) << 16) | (((x >> 48)
        & 0xFF) << 8) | ((x >> 56) & 0xFF)
}

/// What `to_le` returns on this target: the value itself on little-endian
/// hardware, the byte-swapped value on big-endian hardware.
pub open spec fn spec_u64_to_le(x: u64) -> u64 {
    if endianness() is Little {
        x
    } else {
        spec_u64_swap_bytes(x)
    }
}

/// What `to_be` returns on this target.
pub open spec fn spec_u64_to_be(x: u64) -> u64 {
    if endianness() is Little {
        spec_u64_swap_bytes(x)
    } else {
        x
    }
}

/// Relies on u64::to_ne_bytes: the bytes in the target's native order,
/// little-endian or big-endian.
#[verifier::external_body]
fn u64_to_ne_bytes(x: u64) -> (r: [u8; 8])
    ensures
        r@ == if endianness() is Little {
            spec_u64_le_bytes(x)
        } else {
            spec_u64_be_bytes(x)
        },
{
    x.to_ne_bytes()
}

/// Relies on u64::to_le: a no-op on little-endian targets, a byte swap on
/// big-endian ones.
#[verifier::external_body]
fn u64_to_le(x: u64) -> (r: u64)
    ensures
        r == spec_u64_to_le(x),
{
    x.to_le()
}

/// Relies on u64::to_be: a byte swap on little-endian targets, a no-op on
/// big-endian ones.
#[verifier::external_body]
fn u64_to_be(x: u64) -> (r: u64)
    ensures
        r == spec_u64_to_be(x),
{
    x.to_be()
}

/// An 8-byte data field, most significant byte first.
#[derive(Debug, Clone, Copy, PartialEq, Eq, Structural)]
pub struct DataField(pub u64);

impl Conversion for DataField {
    type Type = u64;

    open spec fn spec_from_bits(bits: u64) -> DataField {
        DataField(bits)
    }

    open spec fn spec_bits_valid(bits: u64) -> bool {
        true
    }

    open spec fn spec_into_bits(self) -> u64 {
        self.0
    }

    open spec fn spec_hex_ok(s: Seq<u8>) -> bool {
        hexstr::is_hex_string(s) && hexstr::hex_value(hexstr::strip_plus(s)) <= u64::MAX
    }

    open spec fn spec_hex_bits(s: Seq<u8>) -> u64 {
        hexstr::hex_value(hexstr::strip_plus(s)) as u64
    }

    open spec fn spec_hex_text(self) -> Seq<char> {
        hexstr::hex_upper(self.0 as int, 16)
    }

    /// Wraps a 64-bit integer as a data field.
    fn from_bits(bits: u64) -> DataField {
        DataField(bits)
    }

    /// Parses a base-16 string into a data field.
    fn from_hex(hex_str: &str) -> Option<DataField> {
        match hexstr::parse_hex_u64(hex_str) {
            Some(bits) => Some(DataField(bits)),
            None => None,
        }
    }

    /// Every 64-bit value is a data field.
    fn try_from_bits(bits: u64) -> Option<DataField> {
        Some(DataField(bits))
    }

    /// Parses a base-16 string into a data field.
    fn try_from_hex(hex_str: &str) -> Option<DataField> {
        match hexstr::parse_hex_u64(hex_str) {
            Some(bits) => Some(DataField(bits)),
            None => None,
        }
    }

    /// The raw 64-bit value.
    fn into_bits(self) -> u64 {
        self.0
    }

    /// The raw value written as sixteen upper-case hexadecimal digits.
    fn into_hex(self) -> String {
        hexstr::to_hex_upper_u64(self.0, 16)
    }
}

impl DataField {
    /// Byte 0, the most significant.
    pub fn byte_0(&self) -> (r: u8)
        ensures
            r == ((self.0 >> 56) & 0xFF) as u8,
    {
        ((self.0 >> 56) & 0xFF) as u8
    }

    /// Byte 1.
    pub fn byte_1(&self) -> (r: u8)
        ensures
            r == ((self.0 >> 48) & 0xFF) as u8,
    {
        ((self.0 >> 48) & 0xFF) as u8
    }

    /// Byte 2.
    pub fn byte_2(&self) -> (r: u8)
        ensures
            r == ((self.0 >> 40) & 0xFF) as u8,
    {
        ((self.0 >> 40) & 0xFF) as u8
    }

    /// Byte 3.
    pub fn byte_3(&self) -> (r: u8)
        ensures
            r == ((self.0 >> 32) & 0xFF) as u8,
    {
        ((self.0 >> 32) & 0xFF) as u8
    }

    /// Byte 4.
    pub fn byte_4(&self) -> (r: u8)
        ensures
            r == ((self.0 >> 24) & 0xFF) as u8,
    {
        ((self.0 >> 24) & 0xFF) as u8
    }

    /// Byte 5.
    pub fn byte_5(&self) -> (r: u8)
        ensures
            r == ((self.0 >> 16) & 0xFF) as u8,
    {
        ((self.0 >> 16) & 0xFF) as u8
    }

    /// Byte 6.
    pub fn byte_6(&self) -> (r: u8)
        ensures
            r == ((self.0 >> 8) & 0xFF) as u8,
    {
        ((self.0 >> 8) & 0xFF) as u8
    }

    /// Byte 7, the least significant.
    pub fn byte_7(&self) -> (r: u8)
        ensures
            r == (self.0 & 0xFF) as u8,
    {
        (self.0 & 0xFF) as u8
    }

    /// The field as little-endian bytes.
    pub fn to_le_bytes(&self) -> (r: [u8; 8])
        ensures
            r@ == spec_u64_le_bytes(self.0),
    {
        let r = [
            (self.0 & 0xFF) as u8,
            ((self.0 >> 8) & 0xFF) as u8,
            ((self.0 >> 16) & 0xFF) as u8,
            ((self.0 >> 24) & 0xFF) as u8,
            ((self.0 >> 32) & 0xFF) as u8,
            ((self.0 >> 40) & 0xFF) as u8,
            ((self.0 >> 48) & 0xFF) as u8,
            ((self.0 >> 56) & 0xFF) as u8,
        ];
        proof {
            assert(r@ =~= spec_u64_le_bytes(self.0));
        }
        r
    }

    /// The field as big-endian bytes.
    pub fn to_be_bytes(&self) -> (r: [u8; 8])
        ensures
            r@ == spec_u64_be_bytes(self.0),
    {
        let r = [
            ((self.0 >> 56) & 0xFF) as u8,
            ((self.0 >> 48) & 0xFF) as u8,
            ((self.0 >> 40) & 0xFF) as u8,
            ((self.0 >> 32) & 0xFF) as u8,
            ((self.0 >> 24) & 0xFF) as u8,
            ((self.0 >> 16) & 0xFF) as u8,
            ((self.0 >> 8) & 0xFF) as u8,
            (self.0 & 0xFF) as u8,
        ];
        proof {
            assert(r@ =~= spec_u64_be_bytes(self.0));
        }
        r
    }

    /// The field as native-endian bytes.
    pub fn to_ne_bytes(&self) -> (r: [u8; 8])
        ensures
            r@ == if endianness() is Little {
                spec_u64_le_bytes(self.0)
            } else {
                spec_u64_be_bytes(self.0)
            },
    {
        u64_to_ne_bytes(self.0)
    }

    /// The field converted to little-endian byte format.
    pub fn to_le(&self) -> (r: DataField)
        ensures
            r == DataField(spec_u64_to_le(self.0)),
    {
        DataField(u64_to_le(self.0))
    }

    /// The field converted to big-endian byte format.
    pub fn to_be(&self) -> (r: DataField)
        ensures
            r == DataField(spec_u64_to_be(self.0)),
    {
        DataField(u64_to_be(self.0))
    }
}

/// The J1939 NAME field identifying a device on the network.
///
/// Counted from the most significant bit of the backing `u64`: 1 arbitrary
/// address bit, 3 industry group bits, 4 vehicle system instance bits,
/// 7 vehicle system bits, 1 reserved bit, 8 function bits, 5 function
/// instance bits, 3 ECU instance bits, 11 manufacturer code bits, 21
/// identity number bits.
#[derive(Debug, Clone, Copy, PartialEq, Eq, Structural)]
pub struct NameField(pub u64);

impl Conversion for NameField {
    type Type = u64;

    open spec fn spec_from_bits(bits: u64) -> NameField {
        NameField(bits)
    }

    open spec fn spec_bits_valid(bits: u64) -> bool {
        true
    }

    open spec fn spec_into_bits(self) -> u64 {
        self.0
    }

    open spec fn spec_hex_ok(s: Seq<u8>) -> bool {
        hexstr::is_hex_string(s) && hexstr::hex_value(hexstr::strip_plus(s)) <= u64::MAX
    }

    open spec fn spec_hex_bits(s: Seq<u8>) -> u64 {
        hexstr::hex_value(hexstr::strip_plus(s)) as u64
    }

    open spec fn spec_hex_text(self) -> Seq<char> {
        hexstr::hex_upper(self.0 as int, 16)
    }

    /// Wraps a 64-bit integer as a NAME field.
    fn from_bits(bits: u64) -> NameField {
        NameField(bits)
    }

    /// Parses a base-16 string into a NAME field.
    fn from_hex(hex_str: &str) -> Option<NameField> {
        match hexstr::parse_hex_u64(hex_str) {
            Some(bits) => Some(NameField(bits)),
            None => None,
        }
    }

    /// Every 64-bit value is a NAME field.
    fn try_from_bits(bits: u64) -> Option<NameField> {
        Some(NameField(bits))
    }

    /// Parses a base-16 string into a NAME field.
    fn try_from_hex(hex_str: &str) -> Option<NameField> {
        match hexstr::parse_hex_u64(hex_str) {
            Some(bits) => Some(NameField(bits)),
            None => None,
        }
    }

    /// The raw 64-bit value.
    fn into_bits(self) -> u64 {
        self.0
    }

    /// The raw value written as sixteen upper-case hexadecimal digits.
    fn into_hex(self) -> String {
        hexstr::to_hex_upper_u64(self.0, 16)
    }
}

impl NameField {
    /// The all-zero NAME field, the base the setters build on.
    pub fn new() -> (r: NameField)
        ensures
            r.0 == 0,
    {
        NameField(0)
    }

    /// Sets the arbitrary-address bit.
    pub fn with_arbitrary_address_bits(self, value: bool) -> (r: NameField)
        ensures
            r.0 == (self.0 & !(0x1u64 << 63)) | ((if value {
                1u64
            } else {
                0u64
            }) << 63),
    {
        let v: u64 = if value {
            1
        } else {
            0
        };
        NameField((self.0 & !(0x1u64 << 63)) | (v << 63))
    }

    /// Sets the industry group bits.
    pub fn with_industry_group_bits(self, value: u8) -> (r: NameField)
        requires
            value < 8,
        ensures
            r.0 == (self.0 & !(0x7u64 << 60)) | ((value as u64) << 60),
    {
        NameField((self.0 & !(0x7u64 << 60)) | ((value as u64) << 60))
    }

    /// Sets the vehicle system instance bits.
    pub fn with_vehicle_system_instance_bits(self, value: u8) -> (r: NameField)
        requires
            value < 16,
        ensures
            r.0 == (self.0 & !(0xFu64 << 56)) | ((value as u64) << 56),
    {
        NameField((self.0 & !(0xFu64 << 56)) | ((value as u64) << 56))
    }

    /// Sets the vehicle system bits.
    pub fn with_vehicle_system_bits(self, value: u8) -> (r: NameField)
        requires
            value < 128,
        ensures
            r.0 == (self.0 & !(0x7Fu64 << 49)) | ((value as u64) << 49),
    {
        NameField((self.0 & !(0x7Fu64 << 49)) | ((value as u64) << 49))
    }

    /// Sets the reserved bit.
    pub fn with_reserved_bits(self, value: bool) -> (r: NameField)
        ensures
            r.0 == (self.0 & !(0x1u64 << 48)) | ((if value {
                1u64
            } else {
                0u64
            }) << 48),
    {
        let v: u64 = if value {
            1
        } else {
            0
        };
        NameField((self.0 & !(0x1u64 << 48)) | (v << 48))
    }

    /// Sets the function bits.
    pub fn with_function_bits(self, value: u8) -> (r: NameField)
        ensures
            r.0 == (self.0 & !(0xFFu64 << 40)) | ((value as u64) << 40),
    {
        NameField((self.0 & !(0xFFu64 << 40)) | ((value as u64) << 40))
    }

    /// Sets the function instance bits.
    pub fn with_function_instance_bits(self, value: u8) -> (r: NameField)
        requires
            value < 32,
        ensures
            r.0 == (self.0 & !(0x1Fu64 << 35)) | ((value as u64) << 35),
    {
        NameField((self.0 & !(0x1Fu64 << 35)) | ((value as u64) << 35))
    }

    /// Sets the ECU instance bits.
    pub fn with_ecu_instance_bits(self, value: u8) -> (r: NameField)
        requires
            value < 8,
        ensures
            r.0 == (self.0 & !(0x7u64 << 32)) | ((value as u64) << 32),
    {
        NameField((self.0 & !(0x7u64 << 32)) | ((value as u64) << 32))
    }

    /// Sets the manufacturer code bits.
    pub fn with_manufacturer_code_bits(self, value: u16) -> (r: NameField)
        requires
            value < 2048,
        ensures
            r.0 == (self.0 & !(0x7FFu64 << 21)) | ((value as u64) << 21),
    {
        NameField((self.0 & !(0x7FFu64 << 21)) | ((value as u64) << 21))
    }

    /// Sets the identity number bits.
    pub fn with_identity_number_bits(self, value: u32) -> (r: NameField)
        requires
            value < 0x20_0000,
        ensures
            r.0 == (self.0 & !0x1F_FFFFu64) | (value as u64),
    {
        NameField((self.0 & !0x1F_FFFFu64) | (value as u64))
    }

    /// Whether the ECU can negotiate an address.
    pub fn arbitrary_address(&self) -> (r: bool)
        ensures
            r == ((self.0 >> 63) & 0x1 == 1),
    {
        (self.0 >> 63) & 0x1 == 1
    }

    /// The industry group code.
    pub fn industry_group(&self) -> (r: u8)
        ensures
            r == ((self.0 >> 60) & 0x7) as u8,
    {
        ((self.0 >> 60) & 0x7) as u8
    }

    /// The instance of the vehicle system.
    pub fn vehicle_system_instance(&self) -> (r: u8)
        ensures
            r == ((self.0 >> 56) & 0xF) as u8,
    {
        ((self.0 >> 56) & 0xF) as u8
    }

    /// The vehicle system within the industry group.
    pub fn vehicle_system(&self) -> (r: u8)
        ensures
            r == ((self.0 >> 49) & 0x7F) as u8,
    {
        ((self.0 >> 49) & 0x7F) as u8
    }

    /// The reserved bit; always zero in assigned names.
    pub fn reserved(&self) -> (r: bool)
        ensures
            r == ((self.0 >> 48) & 0x1 == 1),
    {
        (self.0 >> 48) & 0x1 == 1
    }

    /// The function code.
    pub fn function(&self) -> (r: u8)
        ensures
            r == ((self.0 >> 40) & 0xFF) as u8,
    {
        ((self.0 >> 40) & 0xFF) as u8
    }

    /// The function instance.
    pub fn function_instance(&self) -> (r: u8)
        ensures
            r == ((self.0 >> 35) & 0x1F) as u8,
    {
        ((self.0 >> 35) & 0x1F) as u8
    }

    /// The instance separating ECUs with the same function.
    pub fn ecu_instance(&self) -> (r: u8)
        ensures
            r == ((self.0 >> 32) & 0x7) as u8,
    {
        ((self.0 >> 32) & 0x7) as u8
    }

    /// The SAE-assigned manufacturer code.
    pub fn manufacturer_code(&self) -> (r: u16)
        ensures
            r == ((self.0 >> 21) & 0x7FF) as u16,
    {
        ((self.0 >> 21) & 0x7FF) as u16
    }

    /// The manufacturer-assigned identity number.
    pub fn identity_number(&self) -> (r: u32)
        ensures
            r == (self.0 & 0x1F_FFFF) as u32,
    {
        (self.0 & 0x1F_FFFF) as u32
    }
}

/// A Protocol Data Unit payload: a NAME field or a data field.
#[derive(Debug, Clone, Copy, PartialEq, Eq, Structural)]
pub enum Pdu {
    NameField(NameField),
    DataFiled(DataField),
}

/// Which payload kind a PDU carries.
#[derive(Debug, Clone, Copy, PartialEq, Eq, Structural)]
pub enum PduType {
    Name,
    Data,
}

} // verus!
