//! Frame codec for the 2004 edition of the standard: a 12-bit length field
//! in the first frame, classical CAN payloads of 8 bytes.
//!
//! [`dec_ok`], [`dec_frame`] and [`enc_frame`] are the mathematical
//! description of the wire format; the executable functions are proved
//! against them, and [`lemma_codec_round_trip`] shows that decoding an
//! encoded frame gives the frame back.

use vstd::prelude::*;
use vstd::arithmetic::div_mod::*;
use vstd::slice::slice_index_get;
use vstd::slice::slice_to_vec;

use crate::FlowControlContext;
use crate::FlowControlState;
use crate::spec_fc_state_bits;
use crate::can::CanIsoTpFrame;
use crate::can::FrameModel;
use crate::can::CAN_FRAME_MAX_SIZE;
use crate::can::CONSECUTIVE_FRAME_SIZE;
use crate::can::DEFAULT_PADDING;
use crate::can::FIRST_FRAME_SIZE_2004;
use crate::can::ISO_TP_MAX_LENGTH_2004;
use crate::can::SINGLE_FRAME_SIZE_2004;
use crate::can::utils::parse;
use crate::can::utils::seg_frames;
use crate::can::utils::slice_range_to_vec;
use crate::can::utils::spec_pad;
use crate::can::utils::append_bytes;
use crate::can::utils::pad_bytes;
use crate::error::Error;

verus! {

/// The flow-control state a nibble at most 2 decodes to.
pub open spec fn spec_fc_state_of(n: u8) -> FlowControlState {
    if n == 0 {
        FlowControlState::Continues
    } else if n == 1 {
        FlowControlState::Wait
    } else {
        FlowControlState::Overload
    }
}

/// The padding byte an optional padding argument selects.
pub open spec fn spec_pad_byte(padding: Option<u8>) -> u8 {
    match padding {
        Some(p) => p,
        None => DEFAULT_PADDING,
    }
}

/// Whether `s` decodes to a frame under the 2004 dialect.
pub open spec fn dec_ok(s: Seq<u8>) -> bool {
    &&& s.len() >= 3
    &&& {
        let b0 = s[0];
        if b0 & 0xF0 == 0x00 {
            s.len() <= CAN_FRAME_MAX_SIZE && (b0 & 0x0F) + 1 <= s.len()
        } else if b0 & 0xF0 == 0x10 {
            s.len() == CAN_FRAME_MAX_SIZE
        } else if b0 & 0xF0 == 0x20 {
            true
        } else if b0 & 0xF0 == 0x30 {
            b0 & 0x0F <= 2
        } else {
            false
        }
    }
}

/// The frame `s` decodes to, when `dec_ok(s)` holds.
pub open spec fn dec_frame(s: Seq<u8>) -> FrameModel {
    let b0 = s[0];
    if b0 & 0xF0 == 0x00 {
        FrameModel::Single { data: s.subrange(1, 1 + (b0 & 0x0F)) }
    } else if b0 & 0xF0 == 0x10 {
        FrameModel::First {
            length: (b0 & 0x0F) * 256 + s[1],
            data: s.subrange(2, s.len() as int),
        }
    } else if b0 & 0xF0 == 0x20 {
        FrameModel::Consecutive { sequence: b0 & 0x0F, data: s.subrange(1, s.len() as int) }
    } else {
        FrameModel::FlowControl {
            context: FlowControlContext {
                state: spec_fc_state_of(b0 & 0x0F),
                block_size: s[1],
                st_min: s[2],
            },
        }
    }
}

/// The exact error decoding `s` reports, when `dec_ok(s)` fails.
pub open spec fn dec_err_matches(s: Seq<u8>, e: Error) -> bool {
    if s.len() == 0 {
        e == Error::EmptyPdu
    } else if s.len() < 3 {
        e matches Error::InvalidPdu(v) && v@ == s
    } else {
        let b0 = s[0];
        if b0 & 0xF0 == 0x00 {
            if s.len() > CAN_FRAME_MAX_SIZE {
                e == Error::LengthOutOfRange(s.len() as usize)
            } else {
                e matches Error::InvalidPdu(v) && v@ == s
            }
        } else if b0 & 0xF0 == 0x10 {
            e == (Error::InvalidDataLength { actual: s.len() as usize, expect: CAN_FRAME_MAX_SIZE })
        } else if b0 & 0xF0 == 0x20 {
            false
        } else {
            e matches Error::InvalidParam(_)
        }
    }
}

/// The bytes a frame encodes to with padding byte `p` under the 2004
/// dialect.  Single, consecutive and flow-control frames are padded to the
/// full 8 bytes; a first frame is already full and never padded.
pub open spec fn enc_frame(f: FrameModel, p: u8) -> Seq<u8> {
    match f {
        FrameModel::Single { data } => spec_pad(
            seq![data.len() as u8] + data,
            CAN_FRAME_MAX_SIZE as int,
            p,
        ),
        FrameModel::First { length, data } => seq![
            (0x10 + length / 256) as u8,
            (length % 256) as u8,
        ] + data,
        FrameModel::Consecutive { sequence, data } => spec_pad(
            seq![(0x20 + sequence) as u8] + data,
            CAN_FRAME_MAX_SIZE as int,
            p,
        ),
        FrameModel::FlowControl { context } => spec_pad(
            seq![
                (0x30 + spec_fc_state_bits(context.state)) as u8,
                context.block_size,
                context.st_min,
            ],
            CAN_FRAME_MAX_SIZE as int,
            p,
        ),
    }
}

/// What encoding needs of a frame: payloads that fit their frame and a
/// sequence number that fits its nibble.
pub open spec fn encodable(f: FrameModel) -> bool {
    match f {
        FrameModel::Single { data } => data.len() <= SINGLE_FRAME_SIZE_2004,
        FrameModel::First { length, data } => 0 <= length <= ISO_TP_MAX_LENGTH_2004,
        FrameModel::Consecutive { sequence, data } => sequence < 16 && data.len()
            <= CONSECUTIVE_FRAME_SIZE,
        FrameModel::FlowControl { .. } => true,
    }
}

/// The frames whose encoding decodes back to them exactly: a first frame
/// must be full, and a consecutive frame's payload must fill the frame,
/// since its length is not recorded on the wire.
pub open spec fn frame_wf(f: FrameModel) -> bool {
    match f {
        FrameModel::Single { data } => data.len() <= SINGLE_FRAME_SIZE_2004,
        FrameModel::First { length, data } => 0 <= length <= ISO_TP_MAX_LENGTH_2004 && data.len()
            == FIRST_FRAME_SIZE_2004,
        FrameModel::Consecutive { sequence, data } => sequence < 16 && data.len()
            == CONSECUTIVE_FRAME_SIZE,
        FrameModel::FlowControl { .. } => true,
    }
}

/// Decodes a single frame: the low nibble of the first byte is the payload
/// length.
pub fn decode_single(data: &[u8], byte0: u8, length: usize) -> (r: Result<CanIsoTpFrame, Error>)
    requires
        length == data@.len(),
        length >= 3,
        byte0 == data@[0],
        byte0 & 0xF0 == 0x00,
    ensures
        match r {
            Ok(f) => dec_ok(data@) && f@ == dec_frame(data@),
            Err(e) => !dec_ok(data@) && dec_err_matches(data@, e),
        },
{
    if length > CAN_FRAME_MAX_SIZE {
        return Err(Error::LengthOutOfRange(length));
    }
    let pdu_len = byte0 & 0x0F;
    if length < pdu_len as usize + 1 {
        return Err(Error::InvalidPdu(slice_to_vec(data)));
    }
    Ok(
        CanIsoTpFrame::SingleFrame {
            data: slice_range_to_vec(data, 1, pdu_len as usize + 1),
        },
    )
}

/// Decodes a first frame: a classical CAN first frame must be exactly
/// 8 bytes; the 12-bit length is the low nibble and the second byte.
pub fn decode_first(data: &[u8], byte0: u8, length: usize) -> (r: Result<CanIsoTpFrame, Error>)
    requires
        length == data@.len(),
        length >= 3,
        byte0 == data@[0],
        byte0 & 0xF0 == 0x10,
    ensures
        match r {
            Ok(f) => dec_ok(data@) && f@ == dec_frame(data@),
            Err(e) => !dec_ok(data@) && dec_err_matches(data@, e),
        },
{
    if length != CAN_FRAME_MAX_SIZE {
        return Err(Error::InvalidDataLength { actual: length, expect: CAN_FRAME_MAX_SIZE });
    }
    let pdu_len: u32 = ((byte0 & 0x0F) as u32) * 256 + (*slice_index_get(data, 1)) as u32;
    proof {
        assert(byte0 & 0x0F <= 0x0F) by (bit_vector);
    }
    Ok(
        CanIsoTpFrame::FirstFrame {
            length: pdu_len,
            data: slice_range_to_vec(data, 2, CAN_FRAME_MAX_SIZE),
        },
    )
}

/// Encodes a single-frame payload: length nibble, payload, padding.
pub fn encode_single(data: Vec<u8>, padding: Option<u8>) -> (r: Vec<u8>)
    requires
        data@.len() <= SINGLE_FRAME_SIZE_2004,
    ensures
        r@ == enc_frame(FrameModel::Single { data: data@ }, spec_pad_byte(padding)),
{
    let p = match padding {
        Some(v) => v,
        None => DEFAULT_PADDING,
    };
    let mut result: Vec<u8> = Vec::new();
    result.push(data.len() as u8);
    append_bytes(&mut result, &data);
    proof {
        assert(result@ =~= seq![data@.len() as u8] + data@);
    }
    pad_bytes(&mut result, CAN_FRAME_MAX_SIZE, p);
    result
}

/// Encodes a first frame: length nibble and byte, then the payload,
/// unpadded.
pub fn encode_first(length: u32, data: Vec<u8>) -> (r: Vec<u8>)
    requires
        length <= ISO_TP_MAX_LENGTH_2004 as u32,
    ensures
        r@ == enc_frame(FrameModel::First { length: length as int, data: data@ }, 0),
{
    let len_h: u8 = (length / 256) as u8;
    let len_l: u8 = (length % 256) as u8;
    let mut result: Vec<u8> = Vec::new();
    result.push(0x10 + len_h);
    result.push(len_l);
    append_bytes(&mut result, &data);
    proof {
        assert(result@ =~= seq![
            (0x10 + length as int / 256) as u8,
            (length as int % 256) as u8,
        ] + data@);
    }
    result
}

/// Builds a single frame from a payload of at most 7 bytes.
pub fn new_single(data: &[u8]) -> (r: Result<CanIsoTpFrame, Error>)
    ensures
        data@.len() == 0 ==> r == Result::<CanIsoTpFrame, Error>::Err(Error::EmptyPdu),
        1 <= data@.len() <= SINGLE_FRAME_SIZE_2004 ==> (r matches Ok(f) && f@ == (
        FrameModel::Single { data: data@ })),
        data@.len() > SINGLE_FRAME_SIZE_2004 ==> r == Result::<CanIsoTpFrame, Error>::Err(
            Error::LengthOutOfRange(data@.len() as usize),
        ),
{
    let length = data.len();
    if length == 0 {
        return Err(Error::EmptyPdu);
    }
    if length > SINGLE_FRAME_SIZE_2004 {
        return Err(Error::LengthOutOfRange(length));
    }
    let v = slice_to_vec(data);
    Ok(CanIsoTpFrame::SingleFrame { data: v })
}

/// The full segmentation of a payload under the 2004 dialect: one single
/// frame when it fits, else a first frame and its consecutive frames.
pub open spec fn seg_all(s: Seq<u8>) -> Seq<FrameModel> {
    if s.len() <= SINGLE_FRAME_SIZE_2004 {
        seq![FrameModel::Single { data: s }]
    } else {
        seg_frames(s, FIRST_FRAME_SIZE_2004 as int, CONSECUTIVE_FRAME_SIZE as int)
    }
}

/// Segments a payload into frames; rejects an empty payload and one beyond
/// the 12-bit length field.
pub fn from_data(data: &[u8]) -> (r: Result<Vec<CanIsoTpFrame>, Error>)
    ensures
        match r {
            Ok(frames) => 1 <= data@.len() <= ISO_TP_MAX_LENGTH_2004 && frames.deep_view()
                == seg_all(data@),
            Err(e) => if data@.len() == 0 {
                e == Error::EmptyPdu
            } else {
                data@.len() > ISO_TP_MAX_LENGTH_2004 && e == Error::LengthOutOfRange(
                    data@.len() as usize,
                )
            },
        },
{
    let length = data.len();
    if length == 0 {
        return Err(Error::EmptyPdu);
    }
    if length <= CONSECUTIVE_FRAME_SIZE {
        let mut frames: Vec<CanIsoTpFrame> = Vec::new();
        frames.push(CanIsoTpFrame::SingleFrame { data: slice_to_vec(data) });
        proof {
            assert(frames.deep_view() =~= seg_all(data@));
        }
        return Ok(frames);
    }
    if length <= ISO_TP_MAX_LENGTH_2004 {
        let mut offset: usize = 0;
        let mut sequence: u8 = 1;
        let mut results: Vec<CanIsoTpFrame> = Vec::new();
        parse::<FIRST_FRAME_SIZE_2004>(data, &mut offset, &mut sequence, &mut results, length);
        Ok(results)
    } else {
        Err(Error::LengthOutOfRange(length))
    }
}

/// Round trip: decoding an encoded well-formed frame yields the frame,
/// whatever the padding byte was.
pub proof fn lemma_codec_round_trip(f: FrameModel, p: u8)
    requires
        frame_wf(f),
    ensures
        dec_ok(enc_frame(f, p)),
        dec_frame(enc_frame(f, p)) == f,
{
    let e = enc_frame(f, p);
    match f {
        FrameModel::Single { data } => {
            let b0 = (data.len() as u8);
            assert(e[0] == b0);
            assert(b0 <= 7);
            assert(b0 & 0xF0 == 0x00 && b0 & 0x0F == b0) by (bit_vector)
                requires
                    b0 <= 7,
            ;
            assert(e.len() == 8);
            assert(e.subrange(1, 1 + (b0 & 0x0F)) =~= data);
        },
        FrameModel::First { length, data } => {
            let hi = (length / 256) as u8;
            let b0 = (0x10 + length / 256) as u8;
            lemma_div_pos_is_pos(length, 256);
            lemma_div_is_ordered(length, 0xFFF, 256);
            assert(0xFFFint / 256 == 15);
            assert(b0 == 0x10 + hi);
            assert(b0 & 0xF0 == 0x10 && b0 & 0x0F == hi) by (bit_vector)
                requires
                    hi <= 15,
                    b0 == 0x10 + hi,
            ;
            assert(e.len() == 8);
            assert(e[0] == b0 && e[1] == (length % 256) as u8);
            lemma_fundamental_div_mod(length, 256);
            lemma_mod_bound(length, 256);
            assert((b0 & 0x0F) * 256 + e[1] == length);
            assert(e.subrange(2, e.len() as int) =~= data);
        },
        FrameModel::Consecutive { sequence, data } => {
            let b0 = (0x20 + sequence) as u8;
            assert(e[0] == b0);
            assert(b0 & 0xF0 == 0x20 && b0 & 0x0F == sequence) by (bit_vector)
                requires
                    sequence < 16,
                    b0 == 0x20 + sequence,
            ;
            assert(e.len() == 8);
            assert(e.subrange(1, e.len() as int) =~= data);
        },
        FrameModel::FlowControl { context } => {
            let bits = spec_fc_state_bits(context.state);
            let b0 = (0x30 + bits) as u8;
            assert(e[0] == b0);
            assert(b0 & 0xF0 == 0x30 && b0 & 0x0F == bits) by (bit_vector)
                requires
                    bits <= 2,
                    b0 == 0x30 + bits,
            ;
            assert(e.len() == 8);
            assert(e[1] == context.block_size && e[2] == context.st_min);
            assert(spec_fc_state_of(bits) == context.state);
        },
    }
}

/// Segmentation shape: a payload that fits a single frame becomes exactly
/// one single frame; a longer one becomes one first frame carrying the
/// leading bytes followed by exactly `ceil((len - 6) / 7)` consecutive
/// frames, numbered `1, 2, ..., 15, 0, 1, ...`.
pub proof fn lemma_segmentation_shape(p: Seq<u8>)
    requires
        1 <= p.len() <= ISO_TP_MAX_LENGTH_2004,
    ensures
        p.len() <= SINGLE_FRAME_SIZE_2004 ==> seg_all(p) == seq![
            FrameModel::Single { data: p },
        ],
        p.len() > SINGLE_FRAME_SIZE_2004 ==> {
            &&& seg_all(p).len() == 1 + crate::can::utils::seg_cf_count(
                p.len() as int,
                FIRST_FRAME_SIZE_2004 as int,
                CONSECUTIVE_FRAME_SIZE as int,
            )
            &&& seg_all(p)[0] == (FrameModel::First {
                length: p.len() as int,
                data: p.take(FIRST_FRAME_SIZE_2004 as int),
            })
            &&& forall|i: int|
                1 <= i < seg_all(p).len() ==> ((#[trigger] seg_all(p)[i]) matches
                    FrameModel::Consecutive { sequence, .. } && sequence == (i % 16) as u8)
        },
{
    if p.len() > SINGLE_FRAME_SIZE_2004 {
        crate::can::utils::lemma_seg_frames_shape(
            p,
            FIRST_FRAME_SIZE_2004 as int,
            CONSECUTIVE_FRAME_SIZE as int,
        );
        assert forall|i: int| 1 <= i < seg_all(p).len() implies ((#[trigger] seg_all(p)[i]) matches
            FrameModel::Consecutive { sequence, .. } && sequence == (i % 16) as u8) by {
            crate::can::utils::lemma_seg_sequence_numbers(
                p,
                FIRST_FRAME_SIZE_2004 as int,
                CONSECUTIVE_FRAME_SIZE as int,
                i,
            );
        }
    }
}

/// Every byte sequence shorter than 3 bytes is rejected, as an empty or an
/// invalid protocol data unit.
pub proof fn lemma_short_input_rejected(s: Seq<u8>, e: Error)
    requires
        s.len() < 3,
        dec_err_matches(s, e),
    ensures
        !dec_ok(s),
        s.len() == 0 ==> e == Error::EmptyPdu,
        s.len() > 0 ==> (e matches Error::InvalidPdu(v) && v@ == s),
{
}

} // verus!
