//! CAN-specific part of the transport: addresses, the ISO-TP frame type
//! with its codec, and the segmenter.

pub mod frame;
pub mod identifier;
pub mod j1939;
pub mod isotp;
pub mod utils;

use vstd::prelude::*;
use vstd::slice::slice_index_get;
use vstd::slice::slice_to_vec;

use crate::FlowControlContext;
use crate::FlowControlState;
use crate::FrameType;
use crate::error::Error;
use crate::can::utils::std2004;
use crate::can::utils::slice_range_to_vec;
use crate::can::utils::append_bytes;
use crate::can::utils::pad_bytes;

verus! {

/// Largest payload a 2004-edition (12-bit length) transfer can carry.
pub const ISO_TP_MAX_LENGTH_2004: usize = 0xFFF;

/// Largest payload a 2016-edition (32-bit length) transfer can carry.
pub const ISO_TP_MAX_LENGTH_2016: usize = 0xFFFF_FFFF;

/// Mask for standard identifiers.
pub const SFF_MASK: u32 = 0x0000_07FF;

/// Mask for extended identifiers.
pub const EFF_MASK: u32 = 0x1FFF_FFFF;

/// The byte count of a classical CAN frame.
pub const CAN_FRAME_MAX_SIZE: usize = 8;

/// The byte count of a CAN-FD frame.
pub const CANFD_FRAME_MAX_SIZE: usize = 64;

/// Default padding value.
pub const DEFAULT_PADDING: u8 = 0xAA;

/// Single-frame payload capacity, 2004 edition.
pub const SINGLE_FRAME_SIZE_2004: usize = 7;

/// Single-frame payload capacity of the 2016 escape form.
pub const SINGLE_FRAME_SIZE_2016: usize = 6;

/// First-frame payload capacity with the 12-bit length field.
pub const FIRST_FRAME_SIZE_2004: usize = 6;

/// First-frame payload capacity with the escaped 32-bit length field.
pub const FIRST_FRAME_SIZE_2016: usize = 2;

/// Consecutive-frame payload capacity.
pub const CONSECUTIVE_FRAME_SIZE: usize = 7;

/// ISO-TP address format.
#[derive(Debug, Default, Clone, Copy, PartialEq, Eq, Structural)]
pub enum AddressFormat {
    /// 11-bit CAN identifier.
    #[default]
    Normal,
    /// 29-bit CAN identifier.
    NormalFixed,
    /// 11-bit remote CAN identifier.
    Extend,
    /// 11-bit and 11-bit remote CAN identifiers mixed.
    ExtendMixed,
    /// 11-bit (remote) and 29-bit CAN identifiers.
    Enhanced,
}

/// ISO-TP address triple.
///
/// * `tx_id`: transmit identifier.
/// * `rx_id`: receive identifier.
/// * `fid`: functional (broadcast) identifier.
#[derive(Debug, Copy, Clone, Eq, PartialEq, Structural)]
pub struct Address {
    pub tx_id: u32,
    pub rx_id: u32,
    pub fid: u32,
}

/// ISO-TP address type.
#[derive(Debug, Copy, Clone, Eq, PartialEq, Default, Structural)]
pub enum AddressType {
    #[default]
    Physical,
    Functional,
}

/// An ISO-TP frame.
#[derive(Debug, Clone)]
pub enum CanIsoTpFrame {
    /// A payload that fits one CAN frame.
    SingleFrame { data: Vec<u8> },
    /// Opens a multi-frame transfer; `length` is the full payload byte count.
    FirstFrame { length: u32, data: Vec<u8> },
    /// Carries one slice of a multi-frame transfer.
    ConsecutiveFrame { sequence: u8, data: Vec<u8> },
    /// Receiver-to-sender pacing.
    FlowControlFrame(FlowControlContext),
}

/// The mathematical shape of an ISO-TP frame, used throughout the contracts.
#[verifier::ext_equal]
pub enum FrameModel {
    Single { data: Seq<u8> },
    First { length: int, data: Seq<u8> },
    Consecutive { sequence: u8, data: Seq<u8> },
    FlowControl { context: FlowControlContext },
}

impl View for CanIsoTpFrame {
    type V = FrameModel;

    open spec fn view(&self) -> FrameModel {
        match self {
            CanIsoTpFrame::SingleFrame { data } => FrameModel::Single { data: data@ },
            CanIsoTpFrame::FirstFrame { length, data } => FrameModel::First {
                length: *length as int,
                data: data@,
            },
            CanIsoTpFrame::ConsecutiveFrame { sequence, data } => FrameModel::Consecutive {
                sequence: *sequence,
                data: data@,
            },
            CanIsoTpFrame::FlowControlFrame(context) => FrameModel::FlowControl {
                context: *context,
            },
        }
    }
}

impl DeepView for CanIsoTpFrame {
    type V = FrameModel;

    open spec fn deep_view(&self) -> FrameModel {
        self.view()
    }
}

/// The frame type of a frame.
pub open spec fn spec_frame_type(f: FrameModel) -> crate::FrameType {
    match f {
        FrameModel::Single { .. } => crate::FrameType::Single,
        FrameModel::First { .. } => crate::FrameType::First,
        FrameModel::Consecutive { .. } => crate::FrameType::Consecutive,
        FrameModel::FlowControl { .. } => crate::FrameType::FlowControl,
    }
}

impl CanIsoTpFrame {
    /// The frame type tag of this frame.
    pub fn frame_type(&self) -> (r: crate::FrameType)
        ensures
            r == spec_frame_type(self@),
    {
        match self {
            CanIsoTpFrame::SingleFrame { .. } => crate::FrameType::Single,
            CanIsoTpFrame::FirstFrame { .. } => crate::FrameType::First,
            CanIsoTpFrame::ConsecutiveFrame { .. } => crate::FrameType::Consecutive,
            CanIsoTpFrame::FlowControlFrame(_) => crate::FrameType::FlowControl,
        }
    }

    /// Decodes one CAN payload into a frame, under the 2004 edition of the
    /// standard (12-bit first-frame length; see
    /// [`utils::std2016::decode`] for the 2016 edition).  Buffers shorter
    /// than 3 bytes are rejected; the high nibble of the first byte
    /// selects the variant.
    pub fn decode(data: &[u8]) -> (r: Result<CanIsoTpFrame, Error>)
        ensures
            match r {
                Ok(f) => std2004::dec_ok(data@) && f@ == std2004::dec_frame(data@),
                Err(e) => !std2004::dec_ok(data@) && std2004::dec_err_matches(data@, e),
            },
    {
        let length = data.len();
        if length == 0 {
            return Err(Error::EmptyPdu);
        }
        if length < 3 {
            return Err(Error::InvalidPdu(slice_to_vec(data)));
        }
        let byte0 = *slice_index_get(data, 0);
        match FrameType::from_bits(byte0) {
            Err(e) => Err(e),
            Ok(FrameType::Single) => std2004::decode_single(data, byte0, length),
            Ok(FrameType::First) => std2004::decode_first(data, byte0, length),
            Ok(FrameType::Consecutive) => {
                let sequence = byte0 & 0x0F;
                Ok(
                    CanIsoTpFrame::ConsecutiveFrame {
                        sequence,
                        data: slice_range_to_vec(data, 1, length),
                    },
                )
            },
            Ok(FrameType::FlowControl) => {
                match FlowControlState::from_bits(byte0 & 0x0F) {
                    Ok(state) => {
                        let block_size = *slice_index_get(data, 1);
                        let st_min = *slice_index_get(data, 2);
                        Ok(
                            CanIsoTpFrame::FlowControlFrame(
                                FlowControlContext::new(state, block_size, st_min),
                            ),
                        )
                    },
                    Err(e) => Err(e),
                }
            },
        }
    }

    /// Encodes this frame into one CAN payload, padding with `padding` (or
    /// the default padding byte) where the frame prescribes it.
    pub fn encode(self, padding: Option<u8>) -> (r: Vec<u8>)
        requires
            std2004::encodable(self@),
        ensures
            r@ == std2004::enc_frame(self@, std2004::spec_pad_byte(padding)),
    {
        let p = match padding {
            Some(v) => v,
            None => DEFAULT_PADDING,
        };
        match self {
            CanIsoTpFrame::SingleFrame { data } => std2004::encode_single(data, padding),
            CanIsoTpFrame::FirstFrame { length, data } => std2004::encode_first(length, data),
            CanIsoTpFrame::ConsecutiveFrame { sequence, data } => {
                let ghost model = self@;
                let byte0 = 0x20 | sequence;
                proof {
                    assert(sequence < 16 ==> 0x20 | sequence == 0x20 + sequence) by (bit_vector);
                }
                let mut result: Vec<u8> = Vec::new();
                result.push(byte0);
                append_bytes(&mut result, &data);
                proof {
                    assert(result@ =~= seq![(0x20 + sequence) as u8] + data@);
                }
                pad_bytes(&mut result, CAN_FRAME_MAX_SIZE, p);
                result
            },
            CanIsoTpFrame::FlowControlFrame(context) => {
                let bits = context.state.to_bits();
                let byte0 = 0x30 | bits;
                proof {
                    assert(bits <= 2 ==> 0x30 | bits == 0x30 + bits) by (bit_vector);
                }
                let mut result: Vec<u8> = Vec::new();
                result.push(byte0);
                result.push(context.block_size);
                result.push(context.st_min);
                proof {
                    assert(result@ =~= seq![
                        (0x30 + crate::spec_fc_state_bits(context.state)) as u8,
                        context.block_size,
                        context.st_min,
                    ]);
                }
                pad_bytes(&mut result, CAN_FRAME_MAX_SIZE, p);
                result
            },
        }
    }

    /// Segments a payload into the ordered frame stream that carries it,
    /// under the 2004 edition (see [`utils::std2016::from_data`] for the
    /// wider 2016 lengths).
    pub fn from_data(data: &[u8]) -> (r: Result<Vec<CanIsoTpFrame>, Error>)
        ensures
            match r {
                Ok(frames) => 1 <= data@.len() <= ISO_TP_MAX_LENGTH_2004 && frames.deep_view()
                    == std2004::seg_all(data@),
                Err(e) => if data@.len() == 0 {
                    e == Error::EmptyPdu
                } else {
                    data@.len() > ISO_TP_MAX_LENGTH_2004 && e == Error::LengthOutOfRange(
                        data@.len() as usize,
                    )
                },
            },
    {
        std2004::from_data(data)
    }

    /// Builds a single frame from a payload that fits one.
    pub fn single_frame(data: &[u8]) -> (r: Result<CanIsoTpFrame, Error>)
        ensures
            data@.len() == 0 ==> r == Result::<CanIsoTpFrame, Error>::Err(Error::EmptyPdu),
            1 <= data@.len() <= SINGLE_FRAME_SIZE_2004 ==> (r matches Ok(f) && f@ == (
            FrameModel::Single { data: data@ })),
            data@.len() > SINGLE_FRAME_SIZE_2004 ==> r == Result::<CanIsoTpFrame, Error>::Err(
                Error::LengthOutOfRange(data@.len() as usize),
            ),
    {
        std2004::new_single(data)
    }

    /// Builds a flow-control frame from its three fields.
    pub fn flow_ctrl_frame(state: FlowControlState, block_size: u8, st_min: u8) -> (r:
        CanIsoTpFrame)
        ensures
            r@ == (FrameModel::FlowControl {
                context: FlowControlContext { state, block_size, st_min },
            }),
    {
        CanIsoTpFrame::FlowControlFrame(FlowControlContext::new(state, block_size, st_min))
    }

    /// The flow-control frame the receiver answers a first frame with:
    /// `Continues`, no block limit, 10 ms separation.
    pub fn default_flow_ctrl_frame() -> (r: CanIsoTpFrame)
        ensures
            r@ == (FrameModel::FlowControl {
                context: FlowControlContext {
                    state: FlowControlState::Continues,
                    block_size: 0x00,
                    st_min: 10,
                },
            }),
    {
        CanIsoTpFrame::flow_ctrl_frame(FlowControlState::Continues, 0x00, 10)
    }
}

} // verus!
