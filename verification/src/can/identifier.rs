//! CAN identifiers: standard 11-bit and extended 29-bit.

use vstd::prelude::*;
use vstd::string::StringSliceAdditionalSpecFns;

use crate::can::EFF_MASK;
use crate::can::SFF_MASK;
use crate::hexstr;

verus! {

/// A CAN identifier, standard (11-bit) or extended (29-bit).
#[derive(Debug, Clone, Copy, PartialEq, Eq, Structural)]
pub enum Id {
    Standard(u16),
    Extended(u32),
}

/// The identifier `from_bits` builds: the raw value is masked to 29 bits,
/// and becomes standard exactly when that is asked for and it fits 11 bits.
pub open spec fn spec_id_from_bits(bits: u32, extended: bool) -> Id {
    let masked = bits & EFF_MASK;
    if extended {
        Id::Extended(masked)
    } else if masked & (!SFF_MASK & EFF_MASK) > 0 {
        Id::Extended(masked)
    } else {
        Id::Standard(masked as u16)
    }
}

/// The raw 32-bit value of an identifier.
pub open spec fn spec_id_into_bits(id: Id) -> u32 {
    match id {
        Id::Standard(v) => v as u32,
        Id::Extended(v) => v,
    }
}

impl Id {
    /// Builds an identifier from a raw value, masking it to 29 bits.
    pub fn from_bits(bits: u32, extended: bool) -> (r: Id)
        ensures
            r == spec_id_from_bits(bits, extended),
    {
        let masked = bits & EFF_MASK;
        if extended {
            Id::Extended(masked)
        } else {
            if masked & (!SFF_MASK & EFF_MASK) > 0 {
                Id::Extended(masked)
            } else {
                proof {
                    assert(masked <= 0x7FF) by (bit_vector)
                        requires
                            masked & (!0x7FFu32 & 0x1FFF_FFFF) == 0,
                            masked == bits & 0x1FFF_FFFF,
                    ;
                }
                Id::Standard(masked as u16)
            }
        }
    }

    /// Builds an identifier from a hexadecimal string.
    pub fn from_hex(hex_str: &str, extended: bool) -> (r: Option<Id>)
        ensures
            match r {
                Some(id) => {
                    let s = hex_str.spec_bytes();
                    &&& hexstr::is_hex_string(s)
                    &&& hexstr::hex_value(hexstr::strip_plus(s)) <= u32::MAX
                    &&& id == spec_id_from_bits(
                        hexstr::hex_value(hexstr::strip_plus(s)) as u32,
                        extended,
                    )
                },
                None => !(hexstr::is_hex_string(hex_str.spec_bytes()) && hexstr::hex_value(
                    hexstr::strip_plus(hex_str.spec_bytes()),
                ) <= u32::MAX),
            },
    {
        match hexstr::parse_hex_u32(hex_str) {
            Some(bits) => Some(Id::from_bits(bits, extended)),
            None => None,
        }
    }

    /// Builds an identifier only from a value already within 29 bits.
    pub fn try_from_bits(bits: u32, extended: bool) -> (r: Option<Id>)
        ensures
            match r {
                Some(id) => bits <= EFF_MASK && id == spec_id_from_bits(bits, extended),
                None => bits > EFF_MASK,
            },
    {
        if bits <= EFF_MASK {
            Some(Id::from_bits(bits, extended))
        } else {
            None
        }
    }

    /// Builds an identifier from a hexadecimal string already within
    /// 29 bits.
    pub fn try_from_hex(hex_str: &str, extended: bool) -> (r: Option<Id>)
        ensures
            match r {
                Some(id) => {
                    let s = hex_str.spec_bytes();
                    &&& hexstr::is_hex_string(s)
                    &&& hexstr::hex_value(hexstr::strip_plus(s)) <= EFF_MASK
                    &&& id == spec_id_from_bits(
                        hexstr::hex_value(hexstr::strip_plus(s)) as u32,
                        extended,
                    )
                },
                None => !(hexstr::is_hex_string(hex_str.spec_bytes()) && hexstr::hex_value(
                    hexstr::strip_plus(hex_str.spec_bytes()),
                ) <= EFF_MASK),
            },
    {
        match hexstr::parse_hex_u32(hex_str) {
            Some(bits) => Id::try_from_bits(bits, extended),
            None => None,
        }
    }

    /// The raw 32-bit value.
    pub fn into_bits(self) -> (r: u32)
        ensures
            r == spec_id_into_bits(self),
    {
        match self {
            Id::Standard(v) => v as u32,
            Id::Extended(v) => v,
        }
    }

    /// The raw value written as eight upper-case hexadecimal digits.
    pub fn into_hex(self) -> (r: String)
        ensures
            r@ == hexstr::hex_upper(spec_id_into_bits(self) as int, 8),
    {
        hexstr::to_hex_upper_u32(self.into_bits(), 8)
    }

    /// The raw 32-bit value.
    pub fn as_raw(self) -> (r: u32)
        ensures
            r == spec_id_into_bits(self),
    {
        self.into_bits()
    }

    /// The base (11-bit) part: itself for a standard identifier, the top
    /// eleven identifier bits for an extended one.
    pub fn standard_id(self) -> (r: Id)
        ensures
            match self {
                Id::Standard(_) => r == self,
                Id::Extended(v) => r == Id::Standard((v >> 18) as u16),
            },
    {
        match self {
            Id::Standard(_) => self,
            Id::Extended(v) => {
                proof {
                    assert(v >> 18 <= 0x3FFF) by (bit_vector);
                }
                Id::Standard((v >> 18) as u16)
            },
        }
    }

    /// Whether this is an extended identifier.
    pub fn is_extended(&self) -> (r: bool)
        ensures
            r == (self matches Id::Extended(_)),
    {
        match self {
            Id::Standard(_) => false,
            Id::Extended(_) => true,
        }
    }
}

} // verus!
