//! The 18-bit Parameter Group Number and what it classifies.

use vstd::prelude::*;
use vstd::string::StringSliceAdditionalSpecFns;

use crate::can::j1939::Conversion;
use crate::can::j1939::J1939Id;
use crate::can::j1939::address::DestinationAddress;
use crate::hexstr;

verus! {

/// Who assigned a Parameter Group Number.
#[derive(Debug, Clone, Copy, PartialEq, Eq, Structural)]
pub enum PduAssignment {
    /// SAE-assigned; carries the PGN value.
    Sae(u32),
    /// Manufacturer-assigned; carries the PGN value.
    Manufacturer(u32),
    /// Not a recognized assignment; carries the PGN value.
    Unknown(u32),
}

/// The format of a Protocol Data Unit.
#[derive(Debug, Clone, Copy, PartialEq, Eq, Structural)]
pub enum PduFormat {
    /// Format 1, destination-specific; carries the format value.
    Pdu1(u8),
    /// Format 2, broadcast; carries the format value.
    Pdu2(u8),
}

/// The communication mode a PDU format implies.
#[derive(Debug, Clone, Copy, PartialEq, Eq, Structural)]
pub enum CommunicationMode {
    /// Point-to-point; may carry a destination address.
    P2P,
    /// Broadcast.
    Broadcast,
}

/// The group extension of a format-2 PDU.
#[derive(Debug, Clone, Copy, PartialEq, Eq, Structural)]
pub enum GroupExtension {
    /// Format 1 has no group extension.
    Absent,
    /// The group extension value.
    Present(u8),
}

/// An 18-bit Parameter Group Number.
///
/// Counted from the most significant bit of the backing `u32`: 14 padding
/// bits, 1 reserved bit, 1 data page bit, 8 PDU format bits, 8 PDU
/// specific bits.
#[derive(Debug, Clone, Copy, PartialEq, Eq, Structural)]
pub struct Pgn(pub u32);

impl Conversion for Pgn {
    type Type = u32;

    open spec fn spec_from_bits(bits: u32) -> Pgn {
        Pgn(bits)
    }

    open spec fn spec_bits_valid(bits: u32) -> bool {
        bits <= 0x3FFFF
    }

    open spec fn spec_into_bits(self) -> u32 {
        self.0
    }

    open spec fn spec_hex_ok(s: Seq<u8>) -> bool {
        hexstr::is_hex_string(s) && hexstr::hex_value(hexstr::strip_plus(s)) <= u32::MAX
    }

    open spec fn spec_hex_bits(s: Seq<u8>) -> u32 {
        hexstr::hex_value(hexstr::strip_plus(s)) as u32
    }

    open spec fn spec_hex_text(self) -> Seq<char> {
        hexstr::hex_upper(self.0 as int, 5)
    }

    /// Wraps a 32-bit integer as a PGN.
    fn from_bits(bits: u32) -> Pgn {
        Pgn(bits)
    }

    /// Parses a base-16 string into a PGN.
    fn from_hex(hex_str: &str) -> Option<Pgn> {
        match hexstr::parse_hex_u32(hex_str) {
            Some(bits) => Some(Pgn(bits)),
            None => None,
        }
    }

    /// Accepts only values within the 18 PGN bits.
    fn try_from_bits(bits: u32) -> Option<Pgn> {
        if bits <= 0x3FFFF {
            Some(Pgn(bits))
        } else {
            None
        }
    }

    /// Parses a base-16 string within the 18 PGN bits.
    fn try_from_hex(hex_str: &str) -> Option<Pgn> {
        match hexstr::parse_hex_u32(hex_str) {
            Some(bits) => Self::try_from_bits(bits),
            None => None,
        }
    }

    /// The raw 32-bit value.
    fn into_bits(self) -> u32 {
        self.0
    }

    /// The raw value written as five upper-case hexadecimal digits.
    fn into_hex(self) -> String {
        hexstr::to_hex_upper_u32(self.0, 5)
    }
}

/// The PDU format bits of a PGN.
pub open spec fn spec_pgn_pdu_format_bits(p: Pgn) -> u8 {
    ((p.0 >> 8) & 0xFF) as u8
}

/// The PDU specific bits of a PGN.
pub open spec fn spec_pgn_pdu_specific_bits(p: Pgn) -> u8 {
    (p.0 & 0xFF) as u8
}

/// A PGN is format 1 exactly when its format bits are below 240.
pub open spec fn spec_pgn_is_pdu1(p: Pgn) -> bool {
    spec_pgn_pdu_format_bits(p) < 240
}

/// The assignment class of a PGN value.
pub open spec fn spec_pdu_assignment(bits: u32) -> PduAssignment {
    if (bits <= 0xEE00) || (0xF000 <= bits <= 0xFEFF) || (0x1_0000 <= bits <= 0x1_EE00) || (
    0x1_F000 <= bits <= 0x1_FEFF) {
        PduAssignment::Sae(bits)
    } else if (bits == 0xEF00) || (0xFF00 <= bits <= 0xFFFF) || (bits == 0x1_EF00) || (0x1_FF00
        <= bits <= 0x1_FFFF) {
        PduAssignment::Manufacturer(bits)
    } else {
        PduAssignment::Unknown(bits)
    }
}

impl Pgn {
    /// The PDU format: format 1 below 240, format 2 from 240 up.
    pub fn pdu_format(&self) -> (r: PduFormat)
        ensures
            r == if spec_pgn_is_pdu1(*self) {
                PduFormat::Pdu1(spec_pgn_pdu_format_bits(*self))
            } else {
                PduFormat::Pdu2(spec_pgn_pdu_format_bits(*self))
            },
    {
        let ghost b = self.0;
        proof {
            assert((b >> 8) & 0xFF <= 0xFF) by (bit_vector);
        }
        let bits = ((self.0 >> 8) & 0xFF) as u8;
        if bits < 240 {
            PduFormat::Pdu1(bits)
        } else {
            PduFormat::Pdu2(bits)
        }
    }

    /// The group extension: only format-2 PGNs have one.
    pub fn group_extension(&self) -> (r: GroupExtension)
        ensures
            r == if spec_pgn_is_pdu1(*self) {
                GroupExtension::Absent
            } else {
                GroupExtension::Present(spec_pgn_pdu_specific_bits(*self))
            },
    {
        let ghost b = self.0;
        proof {
            assert(b & 0xFF <= 0xFF) by (bit_vector);
        }
        match self.pdu_format() {
            PduFormat::Pdu1(_) => GroupExtension::Absent,
            PduFormat::Pdu2(_) => GroupExtension::Present((self.0 & 0xFF) as u8),
        }
    }

    /// The destination address: only format-1 PGNs carry one.
    pub fn destination_address(&self) -> (r: DestinationAddress)
        ensures
            r == if spec_pgn_is_pdu1(*self) {
                DestinationAddress::Present(spec_pgn_pdu_specific_bits(*self))
            } else {
                DestinationAddress::Absent
            },
    {
        let ghost b = self.0;
        proof {
            assert(b & 0xFF <= 0xFF) by (bit_vector);
        }
        match self.pdu_format() {
            PduFormat::Pdu1(_) => DestinationAddress::Present((self.0 & 0xFF) as u8),
            PduFormat::Pdu2(_) => DestinationAddress::Absent,
        }
    }

    /// The communication mode: point-to-point for format 1, broadcast for
    /// format 2.
    pub fn communication_mode(&self) -> (r: CommunicationMode)
        ensures
            r == if spec_pgn_is_pdu1(*self) {
                CommunicationMode::P2P
            } else {
                CommunicationMode::Broadcast
            },
    {
        match self.pdu_format() {
            PduFormat::Pdu1(_) => CommunicationMode::P2P,
            PduFormat::Pdu2(_) => CommunicationMode::Broadcast,
        }
    }

    /// Whether the communication mode is point-to-point.
    pub fn is_p2p(&self) -> (r: bool)
        ensures
            r == spec_pgn_is_pdu1(*self),
    {
        match self.communication_mode() {
            CommunicationMode::P2P => true,
            CommunicationMode::Broadcast => false,
        }
    }

    /// Whether the communication mode is broadcast.
    pub fn is_broadcast(&self) -> (r: bool)
        ensures
            r == !spec_pgn_is_pdu1(*self),
    {
        match self.communication_mode() {
            CommunicationMode::P2P => false,
            CommunicationMode::Broadcast => true,
        }
    }

    /// Who assigned this PGN value.
    pub fn pdu_assignment(&self) -> (r: PduAssignment)
        ensures
            r == spec_pdu_assignment(self.0),
    {
        let bits = self.0;
        if bits <= 0xEE00 || (0xF000 <= bits && bits <= 0xFEFF) || (0x1_0000 <= bits && bits
            <= 0x1_EE00) || (0x1_F000 <= bits && bits <= 0x1_FEFF) {
            PduAssignment::Sae(bits)
        } else if bits == 0xEF00 || (0xFF00 <= bits && bits <= 0xFFFF) || bits == 0x1_EF00 || (
        0x1_FF00 <= bits && bits <= 0x1_FFFF) {
            PduAssignment::Manufacturer(bits)
        } else {
            PduAssignment::Unknown(bits)
        }
    }
}

impl J1939Id {
    /// The PGN bits of this identifier: data page, PDU format and PDU
    /// specific, packed as a PGN value.
    pub fn pgn_bits(&self) -> (r: u32)
        ensures
            r == (((self.0 >> 24) & 0x01) << 16) | (((self.0 >> 16) & 0xFF) << 8) | ((self.0 >> 8)
                & 0xFF),
    {
        let dp: u32 = if self.data_page() {
            1
        } else {
            0
        };
        let r = (dp << 16) | ((self.pdu_format() as u32) << 8) | (self.pdu_specific() as u32);
        proof {
            let b = self.0;
            assert(((if (b >> 24) & 0x01 == 1 {
                1u32
            } else {
                0u32
            }) << 16) | ((((b >> 16) & 0xFF) as u8 as u32) << 8) | (((b >> 8) & 0xFF) as u8 as u32)
                == (((b >> 24) & 0x01) << 16) | (((b >> 16) & 0xFF) << 8) | ((b >> 8) & 0xFF))
                by (bit_vector);
        }
        r
    }

    /// The PGN of this identifier.
    pub fn pgn(&self) -> (r: Pgn)
        ensures
            r == Pgn(
                (((self.0 >> 24) & 0x01) << 16) | (((self.0 >> 16) & 0xFF) << 8) | ((self.0 >> 8)
                    & 0xFF),
            ),
    {
        Pgn(self.pgn_bits())
    }
}

} // verus!
