//! Protocol constants: the starting sequence number, separation-time and
//! block-size defaults, and the standard timer bounds in milliseconds.

use vstd::prelude::*;

verus! {

/// The sequence number that must follow a first frame.
pub const CONSECUTIVE_SEQUENCE_START: u8 = 0x01;

/// Largest legal millisecond `st_min` byte (127 ms), also the separation
/// time a reserved byte falls back to.
pub const MAX_ST_MIN: u8 = 0x7F;

/// Default P2 of ISO 14229 in ms.
pub const P2_ISO14229: u16 = 50;

/// Default P2* of ISO 14229 in ms.
pub const P2_STAR_ISO14229: u32 = 5000;

/// Default separation time (ms byte).
pub const ST_MIN_ISO15765_2: u8 = 10;

/// Default block size.
pub const BS_ISO15765_2: u8 = 10;

/// OBD-II separation time (ms byte).
pub const ST_MIN_ISO15765_4: u8 = 0;

/// OBD-II block size.
pub const BS_ISO15765_4: u8 = 0;

/// Default timeout Ar in ms.
pub const TIMEOUT_AR_ISO15765_2: u32 = 1000;

/// Default timeout As in ms.
pub const TIMEOUT_AS_ISO15765_2: u32 = 1000;

/// Default timeout Br in ms.
pub const TIMEOUT_BR_ISO15765_2: u32 = 1000;

/// Default timeout Bs in ms.
pub const TIMEOUT_BS_ISO15765_2: u32 = 1000;

/// Default timeout Cr in ms.
pub const TIMEOUT_CR_ISO15765_2: u32 = 1000;

/// Default timeout Cs in ms.
pub const TIMEOUT_CS_ISO15765_2: u32 = 1000;

/// OBD-II timeout Ar in ms.
pub const TIMEOUT_AR_ISO15765_4: u32 = 33;

/// OBD-II timeout As in ms.
pub const TIMEOUT_AS_ISO15765_4: u32 = 33;

/// OBD-II timeout Br in ms.
pub const TIMEOUT_BR_ISO15765_4: u32 = 75;

/// OBD-II timeout Bs in ms.
pub const TIMEOUT_BS_ISO15765_4: u32 = 75;

/// OBD-II timeout Cr in ms.
pub const TIMEOUT_CR_ISO15765_4: u32 = 150;

/// OBD-II timeout Cs in ms (Cs + As < 50 ms).
pub const TIMEOUT_CS_ISO15765_4: u32 = 17;

} // verus!
