//! An ISO 15765-2 (ISO-TP) transport layer for CAN.
//!
//! The crate provides the frame codec (single, first, consecutive and flow
//! control frames in the 2004 and 2016 editions of the standard), the
//! segmenter that splits a payload into an ordered frame stream, the
//! reassembler that accumulates incoming frames, and the session core that
//! drives the sender and receiver state between them.  Every function is
//! verified: encoding, decoding, segmentation and reassembly carry exact
//! contracts, and the round-trip laws relating them are proved.

pub mod can;
pub mod constant;
pub mod error;
pub mod hexstr;

use vstd::prelude::*;

use crate::error::Error;

verus! {

/// The session state bitset is a plain `u8`; these constants name its bits.
/// `STATE_IDLE` is the empty set: nothing in flight.
pub const STATE_IDLE: u8 = 0x00;

/// The sender is blocked awaiting a flow-control frame.
pub const STATE_WAIT_FLOW_CTRL: u8 = 0x04;

/// The peer sent `FlowControlState::Wait`; the sender extends its timer.
pub const STATE_WAIT_BUSY: u8 = 0x10;

/// One frame is queued to the link and unacknowledged.
pub const STATE_SENDING: u8 = 0x40;

/// A sticky error state; only a new write resets it.
pub const STATE_ERROR: u8 = 0x80;

/// ISO-TP events delivered to the session listener.
#[derive(Debug, Clone, PartialEq)]
pub enum IsoTpEvent {
    Wait,
    FirstFrameReceived,
    DataReceived(Vec<u8>),
    ErrorOccurred(Error),
}

/// Listener contract: the session hands each event to its consumer.
/// Implementations live outside the library.
pub trait IsoTpEventListener {
    fn clear_buffer(&mut self);

    fn on_iso_tp_event(&mut self, event: IsoTpEvent);
}

/// ISO-TP timeout kinds; the value is in milliseconds.
#[derive(Debug, Copy, Clone)]
pub enum IsoTpTimeout {
    TimeoutAr { timeout_ms: u32 },
    TimeoutAs { timeout_ms: u32 },
    TimeoutBr { timeout_ms: u32 },
    TimeoutBs { timeout_ms: u32 },
    TimeoutCr { timeout_ms: u32 },
    TimeoutCs { timeout_ms: u32 },
}

/// The four ISO-TP frame kinds, selected by the high nibble of the first
/// protocol control information byte.
#[derive(Debug, Clone, Copy, PartialEq, Eq, Structural)]
pub enum FrameType {
    Single,
    First,
    Consecutive,
    FlowControl,
}

/// The wire value of the high nibble for each frame type.
pub open spec fn spec_frame_type_bits(t: FrameType) -> u8 {
    match t {
        FrameType::Single => 0x00,
        FrameType::First => 0x10,
        FrameType::Consecutive => 0x20,
        FrameType::FlowControl => 0x30,
    }
}

impl FrameType {
    /// The high-nibble wire value of this frame type.
    pub fn to_bits(self) -> (r: u8)
        ensures
            r == spec_frame_type_bits(self),
    {
        match self {
            FrameType::Single => 0x00,
            FrameType::First => 0x10,
            FrameType::Consecutive => 0x20,
            FrameType::FlowControl => 0x30,
        }
    }

    /// Classifies a protocol control information byte by its high nibble.
    /// Every byte whose high nibble is above `0x30` is rejected.
    pub fn from_bits(value: u8) -> (r: Result<FrameType, Error>)
        ensures
            match r {
                Ok(t) => (value & 0xF0) == spec_frame_type_bits(t),
                Err(e) => (value & 0xF0) > 0x30 && e matches Error::InvalidParam(_),
            },
    {
        let high = value & 0xF0;
        assert({
            let h = value & 0xF0;
            h == 0x00 || h == 0x10 || h == 0x20 || h == 0x30 || h > 0x30
        }) by (bit_vector);
        if high == 0x00 {
            Ok(FrameType::Single)
        } else if high == 0x10 {
            Ok(FrameType::First)
        } else if high == 0x20 {
            Ok(FrameType::Consecutive)
        } else if high == 0x30 {
            Ok(FrameType::FlowControl)
        } else {
            Err(Error::InvalidParam(frame_type_param_msg()))
        }
    }
}

/// Message used when a protocol control information byte has an unknown
/// high nibble.
fn frame_type_param_msg() -> String {
    String::from_str("frame type")
}

/// Flow-control frame states.
#[derive(Debug, Default, Clone, Copy, PartialEq, Eq, Structural)]
pub enum FlowControlState {
    #[default]
    Continues,
    Wait,
    Overload,
}

/// The wire value of each flow-control state.
pub open spec fn spec_fc_state_bits(s: FlowControlState) -> u8 {
    match s {
        FlowControlState::Continues => 0x00,
        FlowControlState::Wait => 0x01,
        FlowControlState::Overload => 0x02,
    }
}

impl FlowControlState {
    /// The wire value of this state.
    pub fn to_bits(self) -> (r: u8)
        ensures
            r == spec_fc_state_bits(self),
    {
        match self {
            FlowControlState::Continues => 0x00,
            FlowControlState::Wait => 0x01,
            FlowControlState::Overload => 0x02,
        }
    }

    /// Reads a state from its wire value; values above 2 are rejected.
    pub fn from_bits(value: u8) -> (r: Result<FlowControlState, Error>)
        ensures
            match r {
                Ok(s) => value == spec_fc_state_bits(s),
                Err(e) => value > 0x02 && e matches Error::InvalidParam(_),
            },
    {
        match value {
            0x00 => Ok(FlowControlState::Continues),
            0x01 => Ok(FlowControlState::Wait),
            0x02 => Ok(FlowControlState::Overload),
            _ => Err(Error::InvalidParam(fc_state_param_msg())),
        }
    }
}

/// Message used when a flow-control state nibble is out of range.
fn fc_state_param_msg() -> String {
    String::from_str("flow control state")
}

/// Separation time in microseconds encoded by an `st_min` byte.
///
/// `0x00..=0x7F` are milliseconds (`0x00` meaning the 10 ms default),
/// `0xF1..=0xF9` are hundreds of microseconds, and every reserved value
/// falls back to 127 ms.
pub open spec fn spec_st_min_us(st_min: u8) -> int {
    if st_min == 0x00 {
        10000
    } else if st_min <= 0x7F {
        1000 * (st_min as int)
    } else if 0xF1 <= st_min && st_min <= 0xF9 {
        100 * (st_min - 0xF0)
    } else {
        127000
    }
}

/// Flow-control frame context: state, block size and raw `st_min` byte.
/// The raw byte is preserved as received; [`FlowControlContext::st_min_us`]
/// interprets it.
#[derive(Debug, Copy, Clone, PartialEq, Eq, Structural)]
pub struct FlowControlContext {
    pub state: FlowControlState,
    pub block_size: u8,
    pub st_min: u8,
}

impl FlowControlContext {
    /// Builds a flow-control context from its three wire bytes, kept exactly
    /// as given.
    pub fn new(state: FlowControlState, block_size: u8, st_min: u8) -> (r: FlowControlContext)
        ensures
            r.state == state,
            r.block_size == block_size,
            r.st_min == st_min,
    {
        FlowControlContext { state, block_size, st_min }
    }

    pub fn state(&self) -> (r: FlowControlState)
        ensures
            r == self.state,
    {
        self.state
    }

    pub fn block_size(&self) -> (r: u8)
        ensures
            r == self.block_size,
    {
        self.block_size
    }

    pub fn st_min(&self) -> (r: u8)
        ensures
            r == self.st_min,
    {
        self.st_min
    }

    /// The separation time in microseconds that this context asks for;
    /// reserved `st_min` values fall back to 127 ms.
    pub fn st_min_us(&self) -> (r: u32)
        ensures
            r == spec_st_min_us(self.st_min),
    {
        if self.st_min == 0x00 {
            10000
        } else if self.st_min <= 0x7F {
            1000 * (self.st_min as u32)
        } else if 0xF1 <= self.st_min && self.st_min <= 0xF9 {
            100 * ((self.st_min - 0xF0) as u32)
        } else {
            127000
        }
    }
}

/// Byte order selector for multi-byte fields.
#[derive(Debug, Default, Copy, Clone, Eq, PartialEq)]
pub enum ByteOrder {
    /// Motorola byte order.
    Big,
    /// Intel byte order.
    #[default]
    Little,
    /// Whatever the executing processor uses.
    Native,
}

} // verus!
