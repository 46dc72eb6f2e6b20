//! Frame codec for the 2016 edition of the standard: the single-frame
//! length and the first-frame length each have an escape form, selected by
//! a zero in the short length field.
//!
//! The specification functions mirror [`crate::can::utils::std2004`]; the
//! escape forms carry the length in a dedicated byte (single frames) or in
//! four big-endian bytes (first frames).

use vstd::prelude::*;
use vstd::arithmetic::div_mod::*;
use vstd::slice::slice_index_get;
use vstd::slice::slice_to_vec;

use crate::FlowControlContext;
use crate::FlowControlState;
use crate::FrameType;
use crate::can::CanIsoTpFrame;
use crate::can::FrameModel;
use crate::can::CAN_FRAME_MAX_SIZE;
use crate::can::CONSECUTIVE_FRAME_SIZE;
use crate::can::FIRST_FRAME_SIZE_2004;
use crate::can::FIRST_FRAME_SIZE_2016;
use crate::can::ISO_TP_MAX_LENGTH_2004;
use crate::can::ISO_TP_MAX_LENGTH_2016;
use crate::can::SINGLE_FRAME_SIZE_2004;
use crate::can::SINGLE_FRAME_SIZE_2016;
use crate::can::utils::parse;
use crate::can::utils::seg_frames;
use crate::can::utils::slice_range_to_vec;
use crate::can::utils::spec_pad;
use crate::can::utils::append_bytes;
use crate::can::utils::pad_bytes;
use crate::can::utils::std2004::spec_fc_state_of;
use crate::can::utils::std2004::spec_pad_byte;
use crate::error::Error;

verus! {

/// Whether `s` decodes to a frame under the 2016 dialect.
pub open spec fn dec_ok(s: Seq<u8>) -> bool {
    &&& s.len() >= 3
    &&& {
        let b0 = s[0];
        if b0 & 0xF0 == 0x00 {
            &&& s.len() <= CAN_FRAME_MAX_SIZE
            &&& if b0 & 0x0F > 0 {
                (b0 & 0x0F) + 1 <= s.len()
            } else {
                s[1] + 2 <= s.len()
            }
        } else if b0 & 0xF0 == 0x10 {
            s.len() == CAN_FRAME_MAX_SIZE
        } else if b0 & 0xF0 == 0x20 {
            true
        } else if b0 & 0xF0 == 0x30 {
            b0 & 0x0F <= 2
        } else {
            false
        }
    }
}

/// The 32-bit big-endian value of bytes 2 to 5 of `s`.
pub open spec fn be32_of(s: Seq<u8>) -> int {
    s[2] * 0x100_0000 + s[3] * 0x1_0000 + s[4] * 256 + s[5]
}

/// The frame `s` decodes to, when `dec_ok(s)` holds.
pub open spec fn dec_frame(s: Seq<u8>) -> FrameModel {
    let b0 = s[0];
    if b0 & 0xF0 == 0x00 {
        if b0 & 0x0F > 0 {
            FrameModel::Single { data: s.subrange(1, 1 + (b0 & 0x0F)) }
        } else {
            FrameModel::Single { data: s.subrange(2, 2 + s[1]) }
        }
    } else if b0 & 0xF0 == 0x10 {
        let len12 = (b0 & 0x0F) * 256 + s[1];
        if len12 > 0 {
            FrameModel::First { length: len12, data: s.subrange(2, s.len() as int) }
        } else {
            FrameModel::First { length: be32_of(s), data: s.subrange(6, s.len() as int) }
        }
    } else if b0 & 0xF0 == 0x20 {
        FrameModel::Consecutive { sequence: b0 & 0x0F, data: s.subrange(1, s.len() as int) }
    } else {
        FrameModel::FlowControl {
            context: FlowControlContext {
                state: spec_fc_state_of(b0 & 0x0F),
                block_size: s[1],
                st_min: s[2],
            },
        }
    }
}

/// The exact error decoding `s` reports, when `dec_ok(s)` fails.
pub open spec fn dec_err_matches(s: Seq<u8>, e: Error) -> bool {
    if s.len() == 0 {
        e == Error::EmptyPdu
    } else if s.len() < 3 {
        e matches Error::InvalidPdu(v) && v@ == s
    } else {
        let b0 = s[0];
        if b0 & 0xF0 == 0x00 {
            if s.len() > CAN_FRAME_MAX_SIZE {
                e == Error::LengthOutOfRange(s.len() as usize)
            } else {
                e matches Error::InvalidPdu(v) && v@ == s
            }
        } else if b0 & 0xF0 == 0x10 {
            e == (Error::InvalidDataLength { actual: s.len() as usize, expect: CAN_FRAME_MAX_SIZE })
        } else if b0 & 0xF0 == 0x20 {
            false
        } else {
            e matches Error::InvalidParam(_)
        }
    }
}

/// The bytes a frame encodes to under the 2016 dialect.  A first frame
/// whose length exceeds the 12-bit field uses the escaped 32-bit form.
pub open spec fn enc_frame(f: FrameModel, p: u8) -> Seq<u8> {
    match f {
        FrameModel::Single { data } => spec_pad(
            seq![data.len() as u8] + data,
            CAN_FRAME_MAX_SIZE as int,
            p,
        ),
        FrameModel::First { length, data } => if length <= ISO_TP_MAX_LENGTH_2004 {
            seq![(0x10 + length / 256) as u8, (length % 256) as u8] + data
        } else {
            seq![
                0x10u8,
                0x00u8,
                (length / 0x100_0000) as u8,
                ((length / 0x1_0000) % 256) as u8,
                ((length / 256) % 256) as u8,
                (length % 256) as u8,
            ] + data
        },
        FrameModel::Consecutive { sequence, data } => spec_pad(
            seq![(0x20 + sequence) as u8] + data,
            CAN_FRAME_MAX_SIZE as int,
            p,
        ),
        FrameModel::FlowControl { context } => spec_pad(
            seq![
                (0x30 + crate::spec_fc_state_bits(context.state)) as u8,
                context.block_size,
                context.st_min,
            ],
            CAN_FRAME_MAX_SIZE as int,
            p,
        ),
    }
}

/// The frames whose 2016 encoding decodes back to them exactly.  A single
/// frame must not be empty (an empty length nibble would select the escape
/// form), and a first frame must be full for its length form.
pub open spec fn frame_wf(f: FrameModel) -> bool {
    match f {
        FrameModel::Single { data } => 1 <= data.len() <= SINGLE_FRAME_SIZE_2004,
        FrameModel::First { length, data } => if length <= ISO_TP_MAX_LENGTH_2004 {
            0 < length && data.len() == FIRST_FRAME_SIZE_2004
        } else {
            length <= ISO_TP_MAX_LENGTH_2016 && data.len() == FIRST_FRAME_SIZE_2016
        },
        FrameModel::Consecutive { sequence, data } => sequence < 16 && data.len()
            == CONSECUTIVE_FRAME_SIZE,
        FrameModel::FlowControl { .. } => true,
    }
}

/// Decodes a single frame; a zero length nibble selects the escaped length
/// byte.
pub fn decode_single(data: &[u8], byte0: u8, length: usize) -> (r: Result<CanIsoTpFrame, Error>)
    requires
        length == data@.len(),
        length >= 3,
        byte0 == data@[0],
        byte0 & 0xF0 == 0x00,
    ensures
        match r {
            Ok(f) => dec_ok(data@) && f@ == dec_frame(data@),
            Err(e) => !dec_ok(data@) && dec_err_matches(data@, e),
        },
{
    if length > CAN_FRAME_MAX_SIZE {
        return Err(Error::LengthOutOfRange(length));
    }
    let pdu_len = byte0 & 0x0F;
    if pdu_len > 0 {
        if length < pdu_len as usize + 1 {
            return Err(Error::InvalidPdu(slice_to_vec(data)));
        }
        Ok(
            CanIsoTpFrame::SingleFrame {
                data: slice_range_to_vec(data, 1, pdu_len as usize + 1),
            },
        )
    } else {
        let pdu_len = *slice_index_get(data, 1);
        if length < pdu_len as usize + 2 {
            return Err(Error::InvalidPdu(slice_to_vec(data)));
        }
        Ok(
            CanIsoTpFrame::SingleFrame {
                data: slice_range_to_vec(data, 2, pdu_len as usize + 2),
            },
        )
    }
}

/// Decodes a first frame; a zero 12-bit length selects the escaped 32-bit
/// big-endian length.
pub fn decode_first(data: &[u8], byte0: u8, length: usize) -> (r: Result<CanIsoTpFrame, Error>)
    requires
        length == data@.len(),
        length >= 3,
        byte0 == data@[0],
        byte0 & 0xF0 == 0x10,
    ensures
        match r {
            Ok(f) => dec_ok(data@) && f@ == dec_frame(data@),
            Err(e) => !dec_ok(data@) && dec_err_matches(data@, e),
        },
{
    if length != CAN_FRAME_MAX_SIZE {
        return Err(Error::InvalidDataLength { actual: length, expect: CAN_FRAME_MAX_SIZE });
    }
    proof {
        assert(byte0 & 0x0F <= 0x0F) by (bit_vector);
    }
    let pdu_len: u32 = ((byte0 & 0x0F) as u32) * 256 + (*slice_index_get(data, 1)) as u32;
    if pdu_len > 0 {
        Ok(
            CanIsoTpFrame::FirstFrame {
                length: pdu_len,
                data: slice_range_to_vec(data, 2, CAN_FRAME_MAX_SIZE),
            },
        )
    } else {
        let b2 = *slice_index_get(data, 2);
        let b3 = *slice_index_get(data, 3);
        let b4 = *slice_index_get(data, 4);
        let b5 = *slice_index_get(data, 5);
        let pdu_len: u32 = (b2 as u32) * 0x100_0000 + (b3 as u32) * 0x1_0000 + (b4 as u32) * 256
            + (b5 as u32);
        Ok(
            CanIsoTpFrame::FirstFrame {
                length: pdu_len,
                data: slice_range_to_vec(data, 6, CAN_FRAME_MAX_SIZE),
            },
        )
    }
}

/// Encodes a single-frame payload in the short form.  A classical CAN
/// frame never needs the escape form: its two-byte header would leave less
/// room than the length nibble does.
pub fn encode_single(data: Vec<u8>, padding: Option<u8>) -> (r: Vec<u8>)
    requires
        data@.len() <= SINGLE_FRAME_SIZE_2004,
    ensures
        r@ == enc_frame(FrameModel::Single { data: data@ }, spec_pad_byte(padding)),
{
    let p = match padding {
        Some(v) => v,
        None => crate::can::DEFAULT_PADDING,
    };
    let mut result: Vec<u8> = Vec::new();
    result.push(data.len() as u8);
    append_bytes(&mut result, &data);
    proof {
        assert(result@ =~= seq![data@.len() as u8] + data@);
    }
    pad_bytes(&mut result, CAN_FRAME_MAX_SIZE, p);
    result
}

/// Encodes a first frame, escaping to the 32-bit length form when the
/// length exceeds the 12-bit field.
pub fn encode_first(length: u32, data: Vec<u8>) -> (r: Vec<u8>)
    ensures
        r@ == enc_frame(FrameModel::First { length: length as int, data: data@ }, 0),
{
    let mut result: Vec<u8> = Vec::new();
    if length > ISO_TP_MAX_LENGTH_2004 as u32 {
        result.push(0x10);
        result.push(0x00);
        result.push((length / 0x100_0000) as u8);
        result.push(((length / 0x1_0000) % 256) as u8);
        result.push(((length / 256) % 256) as u8);
        result.push((length % 256) as u8);
        proof {
            assert(result@ =~= seq![
                0x10u8,
                0x00u8,
                (length as int / 0x100_0000) as u8,
                ((length as int / 0x1_0000) % 256) as u8,
                ((length as int / 256) % 256) as u8,
                (length as int % 256) as u8,
            ]);
        }
        append_bytes(&mut result, &data);
        proof {
            assert(result@ =~= seq![
                0x10u8,
                0x00u8,
                (length as int / 0x100_0000) as u8,
                ((length as int / 0x1_0000) % 256) as u8,
                ((length as int / 256) % 256) as u8,
                (length as int % 256) as u8,
            ] + data@);
        }
    } else {
        let len_h: u8 = (length / 256) as u8;
        let len_l: u8 = (length % 256) as u8;
        result.push(0x10 + len_h);
        result.push(len_l);
        append_bytes(&mut result, &data);
        proof {
            assert(result@ =~= seq![
                (0x10 + length as int / 256) as u8,
                (length as int % 256) as u8,
            ] + data@);
        }
    }
    result
}

/// Builds a single frame from a payload of at most 6 bytes.
pub fn new_single(data: &[u8]) -> (r: Result<CanIsoTpFrame, Error>)
    ensures
        data@.len() == 0 ==> r == Result::<CanIsoTpFrame, Error>::Err(Error::EmptyPdu),
        1 <= data@.len() <= SINGLE_FRAME_SIZE_2016 ==> (r matches Ok(f) && f@ == (
        FrameModel::Single { data: data@ })),
        data@.len() > SINGLE_FRAME_SIZE_2016 ==> r == Result::<CanIsoTpFrame, Error>::Err(
            Error::LengthOutOfRange(data@.len() as usize),
        ),
{
    let length = data.len();
    if length == 0 {
        return Err(Error::EmptyPdu);
    }
    if length > SINGLE_FRAME_SIZE_2016 {
        return Err(Error::LengthOutOfRange(length));
    }
    let v = slice_to_vec(data);
    Ok(CanIsoTpFrame::SingleFrame { data: v })
}

/// The full segmentation of a payload under the 2016 dialect: payloads up
/// to the 12-bit limit segment exactly as in 2004; longer ones use the
/// escaped first frame, which carries fewer payload bytes.
pub open spec fn seg_all(s: Seq<u8>) -> Seq<FrameModel> {
    if s.len() <= SINGLE_FRAME_SIZE_2004 {
        seq![FrameModel::Single { data: s }]
    } else if s.len() <= ISO_TP_MAX_LENGTH_2004 {
        seg_frames(s, FIRST_FRAME_SIZE_2004 as int, CONSECUTIVE_FRAME_SIZE as int)
    } else {
        seg_frames(s, FIRST_FRAME_SIZE_2016 as int, CONSECUTIVE_FRAME_SIZE as int)
    }
}

/// Segments a payload into frames under the 2016 dialect.
pub fn from_data(data: &[u8]) -> (r: Result<Vec<CanIsoTpFrame>, Error>)
    ensures
        match r {
            Ok(frames) => 1 <= data@.len() <= ISO_TP_MAX_LENGTH_2016 && frames.deep_view()
                == seg_all(data@),
            Err(e) => if data@.len() == 0 {
                e == Error::EmptyPdu
            } else {
                data@.len() > ISO_TP_MAX_LENGTH_2016 && e == Error::LengthOutOfRange(
                    data@.len() as usize,
                )
            },
        },
{
    let length = data.len();
    if length == 0 {
        return Err(Error::EmptyPdu);
    }
    if length <= SINGLE_FRAME_SIZE_2004 {
        let mut frames: Vec<CanIsoTpFrame> = Vec::new();
        frames.push(CanIsoTpFrame::SingleFrame { data: slice_to_vec(data) });
        proof {
            assert(frames.deep_view() =~= seg_all(data@));
        }
        return Ok(frames);
    }
    if length <= ISO_TP_MAX_LENGTH_2004 {
        let mut offset: usize = 0;
        let mut sequence: u8 = 1;
        let mut results: Vec<CanIsoTpFrame> = Vec::new();
        parse::<FIRST_FRAME_SIZE_2004>(data, &mut offset, &mut sequence, &mut results, length);
        Ok(results)
    } else if length <= ISO_TP_MAX_LENGTH_2016 {
        let mut offset: usize = 0;
        let mut sequence: u8 = 1;
        let mut results: Vec<CanIsoTpFrame> = Vec::new();
        parse::<FIRST_FRAME_SIZE_2016>(data, &mut offset, &mut sequence, &mut results, length);
        Ok(results)
    } else {
        Err(Error::LengthOutOfRange(length))
    }
}

/// Decodes one CAN payload into a frame under the 2016 dialect.
pub fn decode(data: &[u8]) -> (r: Result<CanIsoTpFrame, Error>)
    ensures
        match r {
            Ok(f) => dec_ok(data@) && f@ == dec_frame(data@),
            Err(e) => !dec_ok(data@) && dec_err_matches(data@, e),
        },
{
    let length = data.len();
    if length == 0 {
        return Err(Error::EmptyPdu);
    }
    if length < 3 {
        return Err(Error::InvalidPdu(slice_to_vec(data)));
    }
    let byte0 = *slice_index_get(data, 0);
    match FrameType::from_bits(byte0) {
        Err(e) => Err(e),
        Ok(FrameType::Single) => decode_single(data, byte0, length),
        Ok(FrameType::First) => decode_first(data, byte0, length),
        Ok(FrameType::Consecutive) => {
            let sequence = byte0 & 0x0F;
            Ok(
                CanIsoTpFrame::ConsecutiveFrame {
                    sequence,
                    data: slice_range_to_vec(data, 1, length),
                },
            )
        },
        Ok(FrameType::FlowControl) => {
            match FlowControlState::from_bits(byte0 & 0x0F) {
                Ok(state) => {
                    let block_size = *slice_index_get(data, 1);
                    let st_min = *slice_index_get(data, 2);
                    Ok(
                        CanIsoTpFrame::FlowControlFrame(
                            FlowControlContext::new(state, block_size, st_min),
                        ),
                    )
                },
                Err(e) => Err(e),
            }
        },
    }
}

/// Segmentation shape under the 2016 dialect: one single frame when the
/// payload fits one, else one first frame (short or escaped by payload
/// length) followed by exactly the consecutive frames that cover the rest,
/// numbered `1, 2, ..., 15, 0, 1, ...`.
pub proof fn lemma_segmentation_shape(p: Seq<u8>)
    requires
        1 <= p.len() <= ISO_TP_MAX_LENGTH_2016,
    ensures
        p.len() <= SINGLE_FRAME_SIZE_2004 ==> seg_all(p) == seq![
            FrameModel::Single { data: p },
        ],
        p.len() > SINGLE_FRAME_SIZE_2004 ==> {
            let ff = if p.len() <= ISO_TP_MAX_LENGTH_2004 {
                FIRST_FRAME_SIZE_2004 as int
            } else {
                FIRST_FRAME_SIZE_2016 as int
            };
            &&& seg_all(p).len() == 1 + crate::can::utils::seg_cf_count(
                p.len() as int,
                ff,
                CONSECUTIVE_FRAME_SIZE as int,
            )
            &&& seg_all(p)[0] == (FrameModel::First {
                length: p.len() as int,
                data: p.take(ff),
            })
            &&& forall|i: int|
                1 <= i < seg_all(p).len() ==> ((#[trigger] seg_all(p)[i]) matches
                    FrameModel::Consecutive { sequence, .. } && sequence == (i % 16) as u8)
        },
{
    if p.len() > SINGLE_FRAME_SIZE_2004 {
        let ff = if p.len() <= ISO_TP_MAX_LENGTH_2004 {
            FIRST_FRAME_SIZE_2004 as int
        } else {
            FIRST_FRAME_SIZE_2016 as int
        };
        crate::can::utils::lemma_seg_frames_shape(p, ff, CONSECUTIVE_FRAME_SIZE as int);
        assert forall|i: int| 1 <= i < seg_all(p).len() implies ((#[trigger] seg_all(p)[i]) matches
            FrameModel::Consecutive { sequence, .. } && sequence == (i % 16) as u8) by {
            crate::can::utils::lemma_seg_sequence_numbers(p, ff, CONSECUTIVE_FRAME_SIZE as int, i);
        }
    }
}

/// The four big-endian bytes of a 32-bit value recompose to the value.
proof fn lemma_be32_recompose(length: int)
    requires
        0 <= length <= 0xFFFF_FFFF,
    ensures
        (length / 0x100_0000) * 0x100_0000 + ((length / 0x1_0000) % 256) * 0x1_0000 + ((length
            / 256) % 256) * 256 + length % 256 == length,
        0 <= length / 0x100_0000 <= 255,
{
    lemma_fundamental_div_mod(length, 256);
    lemma_mod_bound(length, 256);
    lemma_div_denominator(length, 256, 256);
    lemma_fundamental_div_mod(length / 256, 256);
    lemma_mod_bound(length / 256, 256);
    lemma_div_denominator(length, 0x1_0000, 256);
    lemma_fundamental_div_mod(length / 0x1_0000, 256);
    lemma_mod_bound(length / 0x1_0000, 256);
    lemma_div_pos_is_pos(length, 0x100_0000);
    lemma_div_is_ordered(length, 0xFFFF_FFFF, 0x100_0000);
    assert(0xFFFF_FFFFint / 0x100_0000 == 255);
    lemma_div_pos_is_pos(length, 256);
    lemma_div_pos_is_pos(length, 0x1_0000);
}

/// Round trip: decoding an encoded well-formed frame yields the frame,
/// whatever the padding byte was, under the 2016 dialect.
pub proof fn lemma_codec_round_trip(f: FrameModel, p: u8)
    requires
        frame_wf(f),
    ensures
        dec_ok(enc_frame(f, p)),
        dec_frame(enc_frame(f, p)) == f,
{
    let e = enc_frame(f, p);
    match f {
        FrameModel::Single { data } => {
            let b0 = (data.len() as u8);
            assert(e[0] == b0);
            assert(1 <= b0 <= 7);
            assert(b0 & 0xF0 == 0x00 && b0 & 0x0F == b0) by (bit_vector)
                requires
                    b0 <= 7,
            ;
            assert(e.len() == 8);
            assert(e.subrange(1, 1 + (b0 & 0x0F)) =~= data);
        },
        FrameModel::First { length, data } => {
            if length <= ISO_TP_MAX_LENGTH_2004 {
                let hi = (length / 256) as u8;
                let b0 = (0x10 + length / 256) as u8;
                lemma_div_pos_is_pos(length, 256);
                lemma_div_is_ordered(length, 0xFFF, 256);
                assert(0xFFFint / 256 == 15);
                assert(b0 == 0x10 + hi);
                assert(b0 & 0xF0 == 0x10 && b0 & 0x0F == hi) by (bit_vector)
                    requires
                        hi <= 15,
                        b0 == 0x10 + hi,
                ;
                assert(e.len() == 8);
                lemma_fundamental_div_mod(length, 256);
                lemma_mod_bound(length, 256);
                assert((b0 & 0x0F) * 256 + e[1] == length);
                assert((b0 & 0x0F) * 256 + e[1] > 0);
                assert(e.subrange(2, e.len() as int) =~= data);
            } else {
                assert(e.len() == 8);
                assert(e[0] == 0x10u8);
                assert(0x10u8 & 0xF0 == 0x10 && 0x10u8 & 0x0F == 0) by (bit_vector);
                assert(e[1] == 0x00u8);
                assert((e[0] & 0x0F) * 256 + e[1] == 0);
                lemma_be32_recompose(length);
                lemma_mod_bound(length, 256);
                lemma_mod_bound(length / 256, 256);
                lemma_mod_bound(length / 0x1_0000, 256);
                assert(be32_of(e) == length);
                assert(e.subrange(6, e.len() as int) =~= data);
            }
        },
        FrameModel::Consecutive { sequence, data } => {
            let b0 = (0x20 + sequence) as u8;
            assert(e[0] == b0);
            assert(b0 & 0xF0 == 0x20 && b0 & 0x0F == sequence) by (bit_vector)
                requires
                    sequence < 16,
                    b0 == 0x20 + sequence,
            ;
            assert(e.len() == 8);
            assert(e.subrange(1, e.len() as int) =~= data);
        },
        FrameModel::FlowControl { context } => {
            let bits = crate::spec_fc_state_bits(context.state);
            let b0 = (0x30 + bits) as u8;
            assert(e[0] == b0);
            assert(b0 & 0xF0 == 0x30 && b0 & 0x0F == bits) by (bit_vector)
                requires
                    bits <= 2,
                    b0 == 0x30 + bits,
            ;
            assert(e.len() == 8);
            assert(e[1] == context.block_size && e[2] == context.st_min);
            assert(spec_fc_state_of(bits) == context.state);
        },
    }
}

} // verus!
