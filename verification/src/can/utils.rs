//! Shared codec helpers and the segmentation loop.
//!
//! [`seg_frames`] is the mathematical description of segmentation: a first
//! frame carrying the leading bytes, then consecutive frames whose sequence
//! numbers rotate `1, 2, ..., 15, 0, 1, ...`.  [`parse`] computes it, and the
//! laws at the bottom state the shape every segmentation has.

pub mod std2004;
pub mod std2016;

use vstd::prelude::*;
use vstd::arithmetic::div_mod::*;
use vstd::slice::slice_index_get;

use crate::can::CanIsoTpFrame;
use crate::can::FrameModel;
use crate::can::CAN_FRAME_MAX_SIZE;
use crate::can::CONSECUTIVE_FRAME_SIZE;

verus! {

/// `s` padded with `p` up to length `n` (unchanged when already longer).
pub open spec fn spec_pad(s: Seq<u8>, n: int, p: u8) -> Seq<u8> {
    if s.len() >= n {
        s
    } else {
        s + Seq::new((n - s.len()) as nat, |i| p)
    }
}

/// Copies `data[from..to]` into a fresh vector.
pub fn slice_range_to_vec(data: &[u8], from: usize, to: usize) -> (r: Vec<u8>)
    requires
        from <= to <= data@.len(),
    ensures
        r@ == data@.subrange(from as int, to as int),
{
    let mut out: Vec<u8> = Vec::new();
    let mut i: usize = from;
    while i < to
        invariant
            from <= i <= to <= data@.len(),
            out@ == data@.subrange(from as int, i as int),
        decreases to - i,
    {
        out.push(*slice_index_get(data, i));
        proof {
            assert(out@ =~= data@.subrange(from as int, i + 1));
        }
        i += 1;
    }
    out
}

/// Appends all of `src` to `dst`.
pub fn append_bytes(dst: &mut Vec<u8>, src: &Vec<u8>)
    ensures
        final(dst)@ == old(dst)@ + src@,
{
    let mut i: usize = 0;
    while i < src.len()
        invariant
            i <= src@.len(),
            dst@ == old(dst)@ + src@.take(i as int),
        decreases src@.len() - i,
    {
        dst.push(src[i]);
        proof {
            assert(old(dst)@ + src@.take(i + 1) =~= (old(dst)@ + src@.take(i as int)).push(
                src@[i as int],
            ));
        }
        i += 1;
    }
    proof {
        assert(src@.take(i as int) =~= src@);
    }
}

/// Copies a byte vector.
pub fn clone_bytes(v: &Vec<u8>) -> (r: Vec<u8>)
    ensures
        r@ == v@,
{
    let mut out: Vec<u8> = Vec::new();
    let mut i: usize = 0;
    while i < v.len()
        invariant
            i <= v@.len(),
            out@ == v@.take(i as int),
        decreases v@.len() - i,
    {
        out.push(v[i]);
        proof {
            assert(out@ =~= v@.take(i + 1));
        }
        i += 1;
    }
    proof {
        assert(v@.take(i as int) =~= v@);
    }
    out
}

/// Pads `v` with `p` up to length `n`.
pub fn pad_bytes(v: &mut Vec<u8>, n: usize, p: u8)
    requires
        old(v)@.len() <= n,
    ensures
        final(v)@ == spec_pad(old(v)@, n as int, p),
{
    while v.len() < n
        invariant
            v@.len() <= n,
            v@ == spec_pad(old(v)@, v@.len() as int, p),
            v@.len() >= old(v)@.len(),
            spec_pad(old(v)@, n as int, p).take(v@.len() as int) == v@,
            spec_pad(old(v)@, n as int, p).len() == n,
        decreases n - v@.len(),
    {
        v.push(p);
        proof {
            assert(v@ =~= spec_pad(old(v)@, n as int, p).take(v@.len() as int));
            assert(v@ =~= spec_pad(old(v)@, v@.len() as int, p));
        }
    }
    proof {
        assert(spec_pad(old(v)@, n as int, p).take(v@.len() as int) =~= spec_pad(
            old(v)@,
            n as int,
            p,
        ));
    }
}

/// The next legal CAN-FD payload size for `length` bytes: the smallest of
/// {8, 12, 16, 20, 24, 32, 48, 64} that holds them; `None` above 64.
pub open spec fn spec_can_fd_resize(length: int) -> Option<int> {
    if length <= CAN_FRAME_MAX_SIZE {
        Some(CAN_FRAME_MAX_SIZE as int)
    } else if length <= 12 {
        Some(12)
    } else if length <= 16 {
        Some(16)
    } else if length <= 20 {
        Some(20)
    } else if length <= 24 {
        Some(24)
    } else if length <= 32 {
        Some(32)
    } else if length <= 48 {
        Some(48)
    } else if length <= 64 {
        Some(64)
    } else {
        None
    }
}

/// Computes the quantized CAN-FD payload size.
pub fn can_fd_resize(length: usize) -> (r: Option<usize>)
    ensures
        match r {
            Some(v) => spec_can_fd_resize(length as int) == Some(v as int),
            None => spec_can_fd_resize(length as int) is None,
        },
{
    if length <= CAN_FRAME_MAX_SIZE {
        Some(CAN_FRAME_MAX_SIZE)
    } else if length <= 12 {
        Some(12)
    } else if length <= 16 {
        Some(16)
    } else if length <= 20 {
        Some(20)
    } else if length <= 24 {
        Some(24)
    } else if length <= 32 {
        Some(32)
    } else if length <= 48 {
        Some(48)
    } else if length <= 64 {
        Some(64)
    } else {
        None
    }
}

/// How many consecutive frames a payload of `len` bytes needs after a first
/// frame carrying `ff` bytes, each consecutive frame carrying up to `cf`.
pub open spec fn seg_cf_count(len: int, ff: int, cf: int) -> int {
    (len - ff + cf - 1) / cf
}

/// The `k`-th consecutive frame (1-based) of the segmentation of `s`.
pub open spec fn seg_cf_frame(s: Seq<u8>, ff: int, cf: int, k: int) -> FrameModel {
    FrameModel::Consecutive {
        sequence: (k % 16) as u8,
        data: s.subrange(
            ff + (k - 1) * cf,
            if ff + k * cf <= s.len() {
                ff + k * cf
            } else {
                s.len() as int
            },
        ),
    }
}

/// The multi-frame segmentation of `s`: one first frame with the payload
/// length and the first `ff` bytes, then the consecutive frames in order.
pub open spec fn seg_frames(s: Seq<u8>, ff: int, cf: int) -> Seq<FrameModel> {
    seq![
        FrameModel::First { length: s.len() as int, data: s.take(ff) },
    ] + Seq::new(seg_cf_count(s.len() as int, ff, cf) as nat, |i: int| seg_cf_frame(s, ff, cf, i + 1))
}

/// Splits `data` into a first frame and consecutive frames, appending them
/// to `results` exactly as [`seg_frames`] describes.
pub fn parse<const FIRST_FRAME_SIZE: usize>(
    data: &[u8],
    offset: &mut usize,
    sequence: &mut u8,
    results: &mut Vec<CanIsoTpFrame>,
    length: usize,
)
    requires
        *old(offset) == 0,
        *old(sequence) == 1,
        old(results)@.len() == 0,
        length == data@.len(),
        1 <= FIRST_FRAME_SIZE,
        FIRST_FRAME_SIZE < length <= 0xFFFF_FFFF,
    ensures
        final(results).deep_view() == seg_frames(
            data@,
            FIRST_FRAME_SIZE as int,
            CONSECUTIVE_FRAME_SIZE as int,
        ),
{
    let ghost s = data@;
    let ghost ff = FIRST_FRAME_SIZE as int;
    let ghost cf = CONSECUTIVE_FRAME_SIZE as int;
    let ghost model = seg_frames(s, ff, cf);
    let ghost n = seg_cf_count(s.len() as int, ff, cf);

    proof {
        lemma_seg_cf_count_pos(s.len() as int, ff, cf);
    }

    *offset = FIRST_FRAME_SIZE;
    let frame = CanIsoTpFrame::FirstFrame {
        length: length as u32,
        data: slice_range_to_vec(data, 0, FIRST_FRAME_SIZE),
    };
    results.push(frame);
    proof {
        assert(s.subrange(0, ff) =~= s.take(ff));
        assert(results.deep_view() =~= model.take(1));
    }

    let ghost mut k: int = 0;
    loop
        invariant_except_break
            0 <= k < n,
            *offset == ff + k * cf,
            *offset < length,
            *sequence == ((k + 1) % 16) as u8,
            length == s.len(),
            FIRST_FRAME_SIZE < length <= 0xFFFF_FFFF,
            ff == FIRST_FRAME_SIZE as int,
            cf == CONSECUTIVE_FRAME_SIZE as int,
            s == data@,
            model == seg_frames(s, ff, cf),
            n == seg_cf_count(s.len() as int, ff, cf),
            results.deep_view() =~= model.take(1 + k),
        ensures
            results.deep_view() =~= model,
        decreases length - *offset,
    {
        proof {
            lemma_mod_bound(k + 1, 16);
            assert((k + 1) * cf == k * cf + cf) by (nonlinear_arith);
        }
        if length - *offset <= CONSECUTIVE_FRAME_SIZE {
            let frame = CanIsoTpFrame::ConsecutiveFrame {
                sequence: *sequence,
                data: slice_range_to_vec(data, *offset, length),
            };
            let ghost prev = results.deep_view();
            results.push(frame);
            proof {
                lemma_seg_last_cf(s.len() as int, ff, cf, k);
                assert(frame.deep_view() == seg_cf_frame(s, ff, cf, k + 1));
                assert(model[1 + k] == seg_cf_frame(s, ff, cf, k + 1));
                assert(results.deep_view() =~= prev.push(frame.deep_view()));
                assert(results.deep_view() =~= model.take(1 + k + 1));
                assert(model.take(1 + n) =~= model);
            }
            break ;
        }
        let frame = CanIsoTpFrame::ConsecutiveFrame {
            sequence: *sequence,
            data: slice_range_to_vec(data, *offset, *offset + CONSECUTIVE_FRAME_SIZE),
        };
        *offset += CONSECUTIVE_FRAME_SIZE;
        if *sequence >= 0x0F {
            *sequence = 0;
        } else {
            *sequence += 1;
        }
        let ghost prev = results.deep_view();
        results.push(frame);
        proof {
            lemma_seg_mid_cf(s.len() as int, ff, cf, k);
            lemma_mod_rotate(k + 1);
            assert(frame.deep_view() == seg_cf_frame(s, ff, cf, k + 1));
            assert(model[1 + k] == seg_cf_frame(s, ff, cf, k + 1));
            assert(results.deep_view() =~= prev.push(frame.deep_view()));
            assert(results.deep_view() =~= model.take(1 + k + 1));
            k = k + 1;
        }
    }
}

/// A payload longer than the first frame needs at least one consecutive
/// frame.
proof fn lemma_seg_cf_count_pos(len: int, ff: int, cf: int)
    requires
        1 <= cf,
        ff < len,
    ensures
        seg_cf_count(len, ff, cf) >= 1,
{
    lemma_div_is_ordered(cf, len - ff + cf - 1, cf);
    lemma_div_by_self(cf);
}

/// While `ff + (k + 1) * cf < len`, frame `k + 1` is a full consecutive
/// frame and is not the last.
proof fn lemma_seg_mid_cf(len: int, ff: int, cf: int, k: int)
    requires
        1 <= cf,
        0 <= k,
        ff + k * cf < len,
        ff + k * cf + cf < len,
    ensures
        k + 1 < seg_cf_count(len, ff, cf),
{
    let m = len - ff;
    // m + cf - 1 >= (k + 2) * cf, so the quotient is at least k + 2
    assert((k + 2) * cf == k * cf + 2 * cf && cf * (k + 2) == (k + 2) * cf) by (nonlinear_arith);
    lemma_div_multiples_vanish_fancy(k + 2, 0, cf);
    assert((cf * (k + 2) + 0) / cf == k + 2);
    lemma_div_is_ordered((k + 2) * cf, m + cf - 1, cf);
}

/// When `ff + k * cf < len <= ff + (k + 1) * cf`, frame `k + 1` is the last
/// consecutive frame.
proof fn lemma_seg_last_cf(len: int, ff: int, cf: int, k: int)
    requires
        1 <= cf,
        0 <= k,
        ff + k * cf < len,
        len <= ff + k * cf + cf,
    ensures
        seg_cf_count(len, ff, cf) == k + 1,
{
    let m = len - ff;
    assert(k * cf + cf == (k + 1) * cf && (k + 1) * cf == cf * (k + 1)) by (nonlinear_arith);
    let r = m + cf - 1 - (k + 1) * cf;
    lemma_fundamental_div_mod_converse(m + cf - 1, cf, k + 1, r);
}

/// The sequence number after `k` rotates as `(k + 1) % 16`.
proof fn lemma_mod_rotate(k: int)
    requires
        0 <= k,
    ensures
        k % 16 < 0x0F ==> (k + 1) % 16 == k % 16 + 1,
        k % 16 >= 0x0F ==> (k + 1) % 16 == 0,
{
    lemma_mod_bound(k, 16);
    lemma_fundamental_div_mod(k, 16);
    if k % 16 < 0x0F {
        lemma_fundamental_div_mod_converse(k + 1, 16, k / 16, k % 16 + 1);
    } else {
        lemma_fundamental_div_mod_converse(k + 1, 16, k / 16 + 1, 0);
    }
}

/// Segmentation shape: one first frame carrying the leading bytes, then
/// exactly `ceil((len - ff) / cf)` consecutive frames covering the rest.
pub proof fn lemma_seg_frames_shape(s: Seq<u8>, ff: int, cf: int)
    requires
        1 <= cf,
        1 <= ff < s.len(),
    ensures
        seg_frames(s, ff, cf).len() == 1 + seg_cf_count(s.len() as int, ff, cf),
        seg_cf_count(s.len() as int, ff, cf) >= 1,
        seg_frames(s, ff, cf)[0] == (FrameModel::First {
            length: s.len() as int,
            data: s.take(ff),
        }),
        forall|i: int|
            1 <= i < seg_frames(s, ff, cf).len() ==> #[trigger] seg_frames(s, ff, cf)[i]
                == seg_cf_frame(s, ff, cf, i),
{
    lemma_seg_cf_count_pos(s.len() as int, ff, cf);
}

/// The consecutive sequence numbers observed in segmentation order are
/// `1, 2, ..., 15, 0, 1, 2, ...`: frame `i` of the stream carries sequence
/// number `i % 16`.
pub proof fn lemma_seg_sequence_numbers(s: Seq<u8>, ff: int, cf: int, i: int)
    requires
        1 <= cf,
        1 <= ff < s.len(),
        1 <= i < seg_frames(s, ff, cf).len(),
    ensures
        seg_frames(s, ff, cf)[i] matches FrameModel::Consecutive { sequence, .. } && sequence == (
        i % 16) as u8,
{
    lemma_mod_bound(i, 16);
}

} // verus!
