//! SAE J1939 identifier and payload bitfields.

pub mod address;
pub mod message;
pub mod payload;
pub mod pgn;

use vstd::prelude::*;
use vstd::string::StringSliceAdditionalSpecFns;

use crate::can::EFF_MASK;
use crate::can::j1939::address::SourceAddress;
use crate::hexstr;

verus! {

/// Conversions between a bitfield value, its raw integer and its
/// hexadecimal text.  Each implementation fixes, through the spec
/// functions, which raw values and strings it accepts and what they build.
pub trait Conversion where Self: Sized {
    type Type;

    /// The value built from raw bits.
    spec fn spec_from_bits(bits: Self::Type) -> Self;

    /// Which raw bit values `try_from_bits` accepts.
    spec fn spec_bits_valid(bits: Self::Type) -> bool;

    /// The raw bits of a value.
    spec fn spec_into_bits(self) -> Self::Type;

    /// Whether `s` is hexadecimal text whose value fits this type.
    spec fn spec_hex_ok(s: Seq<u8>) -> bool;

    /// The raw bits hexadecimal text parses to.
    spec fn spec_hex_bits(s: Seq<u8>) -> Self::Type;

    /// The hexadecimal text of a value.
    spec fn spec_hex_text(self) -> Seq<char>;

    /// Converts an integer of type [`Conversion::Type`] into `Self`.
    fn from_bits(bits: Self::Type) -> (r: Self)
        ensures
            r == Self::spec_from_bits(bits),
    ;

    /// Converts a hexadecimal string slice into `Self`.
    fn from_hex(hex_str: &str) -> (r: Option<Self>)
        ensures
            match r {
                Some(v) => Self::spec_hex_ok(hex_str.spec_bytes()) && v == Self::spec_from_bits(
                    Self::spec_hex_bits(hex_str.spec_bytes()),
                ),
                None => !Self::spec_hex_ok(hex_str.spec_bytes()),
            },
    ;

    /// Converts an accepted integer into `Self`.
    fn try_from_bits(bits: Self::Type) -> (r: Option<Self>)
        ensures
            match r {
                Some(v) => Self::spec_bits_valid(bits) && v == Self::spec_from_bits(bits),
                None => !Self::spec_bits_valid(bits),
            },
    ;

    /// Converts an accepted hexadecimal string slice into `Self`.
    fn try_from_hex(hex_str: &str) -> (r: Option<Self>)
        ensures
            match r {
                Some(v) => Self::spec_hex_ok(hex_str.spec_bytes()) && Self::spec_bits_valid(
                    Self::spec_hex_bits(hex_str.spec_bytes()),
                ) && v == Self::spec_from_bits(Self::spec_hex_bits(hex_str.spec_bytes())),
                None => !(Self::spec_hex_ok(hex_str.spec_bytes()) && Self::spec_bits_valid(
                    Self::spec_hex_bits(hex_str.spec_bytes()),
                )),
            },
    ;

    /// Converts `self` into its raw integer.
    fn into_bits(self) -> (r: Self::Type)
        ensures
            r == self.spec_into_bits(),
    ;

    /// Converts `self` into a hexadecimal string.
    fn into_hex(self) -> (r: String)
        ensures
            r@ == self.spec_hex_text(),
    ;
}

/// A 29-bit J1939 CAN identifier.
///
/// Counted from the most significant bit of the backing `u32`: 3 padding
/// bits, 3 priority bits, 1 reserved bit, 1 data page bit, 8 PDU format
/// bits, 8 PDU specific bits, 8 source address bits.
#[derive(Debug, Clone, Copy, PartialEq, Eq, Structural)]
pub struct J1939Id(pub u32);

impl Conversion for J1939Id {
    type Type = u32;

    open spec fn spec_from_bits(bits: u32) -> J1939Id {
        J1939Id(bits)
    }

    open spec fn spec_bits_valid(bits: u32) -> bool {
        bits <= EFF_MASK
    }

    open spec fn spec_into_bits(self) -> u32 {
        self.0
    }

    open spec fn spec_hex_ok(s: Seq<u8>) -> bool {
        hexstr::is_hex_string(s) && hexstr::hex_value(hexstr::strip_plus(s)) <= u32::MAX
    }

    open spec fn spec_hex_bits(s: Seq<u8>) -> u32 {
        hexstr::hex_value(hexstr::strip_plus(s)) as u32
    }

    open spec fn spec_hex_text(self) -> Seq<char> {
        hexstr::hex_upper(self.0 as int, 8)
    }

    /// Wraps a 32-bit integer as a J1939 identifier.
    fn from_bits(bits: u32) -> J1939Id {
        J1939Id(bits)
    }

    /// Parses a base-16 string into a J1939 identifier.
    fn from_hex(hex_str: &str) -> Option<J1939Id> {
        match hexstr::parse_hex_u32(hex_str) {
            Some(bits) => Some(J1939Id(bits)),
            None => None,
        }
    }

    /// Accepts only values within the 29 identifier bits.
    fn try_from_bits(bits: u32) -> Option<J1939Id> {
        if bits <= EFF_MASK {
            Some(J1939Id(bits))
        } else {
            None
        }
    }

    /// Parses a base-16 string within the 29 identifier bits.
    fn try_from_hex(hex_str: &str) -> Option<J1939Id> {
        match hexstr::parse_hex_u32(hex_str) {
            Some(bits) => Self::try_from_bits(bits),
            None => None,
        }
    }

    /// The raw 32-bit value.
    fn into_bits(self) -> u32 {
        self.0
    }

    /// The raw value written as eight upper-case hexadecimal digits.
    fn into_hex(self) -> String {
        hexstr::to_hex_upper_u32(self.0, 8)
    }
}

impl J1939Id {
    /// Composes a 29-bit J1939 identifier from its fields; priorities
    /// above 7 do not fit their three bits and are rejected.
    pub fn from_raw_parts(
        priority: u8,
        data_page: bool,
        pdu_format: u8,
        pdu_specific: u8,
        source_addr: u8,
    ) -> (r: Option<J1939Id>)
        ensures
            match r {
                Some(id) => priority <= 7 && id.0 == ((priority as u32) << 26) | (
                (if data_page {
                    1u32
                } else {
                    0u32
                }) << 24) | ((pdu_format as u32) << 16) | ((pdu_specific as u32) << 8) | (
                source_addr as u32),
                None => priority > 7,
            },
    {
        if priority <= 7 {
            let dp: u32 = if data_page {
                1
            } else {
                0
            };
            Some(
                J1939Id(
                    ((priority as u32) << 26) | (dp << 24) | ((pdu_format as u32) << 16) | ((
                    pdu_specific as u32) << 8) | (source_addr as u32),
                ),
            )
        } else {
            None
        }
    }

    /// The priority bits; 0 is the highest priority.
    pub fn priority(&self) -> (r: u8)
        ensures
            r == ((self.0 >> 26) & 0x07) as u8,
    {
        let ghost b = self.0;
        proof {
            assert((b >> 26) & 0x07 <= 7) by (bit_vector);
        }
        ((self.0 >> 26) & 0x07) as u8
    }

    /// The data page flag.
    pub fn data_page(&self) -> (r: bool)
        ensures
            r == ((self.0 >> 24) & 0x01 == 1),
    {
        (self.0 >> 24) & 0x01 == 1
    }

    /// The PDU format bits.
    pub fn pdu_format(&self) -> (r: u8)
        ensures
            r == ((self.0 >> 16) & 0xFF) as u8,
    {
        let ghost b = self.0;
        proof {
            assert((b >> 16) & 0xFF <= 0xFF) by (bit_vector);
        }
        ((self.0 >> 16) & 0xFF) as u8
    }

    /// The PDU specific bits.
    pub fn pdu_specific(&self) -> (r: u8)
        ensures
            r == ((self.0 >> 8) & 0xFF) as u8,
    {
        let ghost b = self.0;
        proof {
            assert((b >> 8) & 0xFF <= 0xFF) by (bit_vector);
        }
        ((self.0 >> 8) & 0xFF) as u8
    }

    /// The source address bits.
    pub fn source_address(&self) -> (r: SourceAddress)
        ensures
            r == SourceAddress::Present((self.0 & 0xFF) as u8),
    {
        let ghost b = self.0;
        proof {
            assert(b & 0xFF <= 0xFF) by (bit_vector);
        }
        SourceAddress::Present((self.0 & 0xFF) as u8)
    }
}

} // verus!
