//! Reassembly and flow-control context of a session.
//!
//! [`spec_feed_first`] and [`spec_feed_consecutive`] are the mathematical
//! reassembler; the methods of [`IsoTpContext`] compute them.  The law
//! [`lemma_segment_reassemble`] closes the loop with the segmenter: feeding
//! the frames that segmentation produces, in order, yields exactly the
//! original payload.

use vstd::prelude::*;
use vstd::arithmetic::div_mod::*;

use crate::FlowControlContext;
use crate::IsoTpEvent;
use crate::constant::CONSECUTIVE_SEQUENCE_START;
use crate::can::FrameModel;
use crate::can::utils::seg_cf_count;
use crate::can::utils::seg_cf_frame;
use crate::can::utils::seg_frames;
use crate::can::utils::append_bytes;
use crate::can::utils::std2004;
use crate::can::utils::std2016;
use crate::error::Error;

verus! {

/// Cached flow-control parameters: separation time in microseconds and the
/// block size the peer asked for.
#[derive(Debug, Clone, Copy, PartialEq, Eq, Structural)]
pub struct FlowCtrl {
    pub st_min: u32,
    pub block_size: u8,
}

/// Consecutive-frame reassembly state.
#[derive(Debug, Clone, PartialEq)]
pub struct Consecutive {
    pub sequence: Option<u8>,
    pub length: Option<u32>,
    pub buffer: Vec<u8>,
}

/// The per-session context: the latest flow-control snapshot and the
/// reassembly buffer.
#[derive(Debug, Clone)]
pub struct IsoTpContext {
    pub flow_ctrl: Option<FlowCtrl>,
    pub consecutive: Consecutive,
}

/// The mathematical shape of the reassembly state.
#[verifier::ext_equal]
pub struct ConsecModel {
    pub sequence: Option<u8>,
    pub length: Option<int>,
    pub buffer: Seq<u8>,
}

/// The model of a reassembly state.
pub open spec fn consec_model(c: Consecutive) -> ConsecModel {
    ConsecModel {
        sequence: c.sequence,
        length: match c.length {
            Some(l) => Some(l as int),
            None => None,
        },
        buffer: c.buffer@,
    }
}

/// The empty reassembly state.
pub open spec fn empty_consec_model() -> ConsecModel {
    ConsecModel { sequence: None, length: None, buffer: Seq::empty() }
}

/// The sequence number that must follow `prev`: 1 after a first frame,
/// then incrementing and wrapping 15 to 0.
pub open spec fn spec_next_sequence(prev: Option<u8>) -> u8 {
    match prev {
        None => 1,
        Some(v) => if v <= 0x0E {
            (v + 1) as u8
        } else {
            0
        },
    }
}

/// What feeding one consecutive frame produces.
#[verifier::ext_equal]
pub enum ReasmOutcome {
    /// More frames are needed.
    Wait,
    /// The payload is complete.
    Complete(Seq<u8>),
    /// No first frame preceded the consecutive frame.
    MixedFrames,
    /// The sequence number was not the expected one.
    BadSequence { expect: u8, actual: u8 },
}

/// A first frame opens a fresh transfer: it sets the expected length,
/// seeds the buffer with exactly its payload, and the sequence expected
/// next is 1 again.
pub open spec fn spec_feed_first(length: int, data: Seq<u8>) -> ConsecModel {
    ConsecModel { sequence: None, length: Some(length), buffer: data }
}

/// A consecutive frame is accepted only after a first frame and only with
/// the expected sequence number; its bytes accumulate, and once enough
/// have arrived the payload is complete (truncated to the expected
/// length) and the reassembly state is cleared.
pub open spec fn spec_feed_consecutive(m: ConsecModel, sequence: u8, data: Seq<u8>) -> (
    ConsecModel,
    ReasmOutcome,
) {
    match m.length {
        None => (m, ReasmOutcome::MixedFrames),
        Some(len) => {
            let target = spec_next_sequence(m.sequence);
            if sequence != target {
                (
                    ConsecModel { sequence: Some(target), length: m.length, buffer: m.buffer },
                    ReasmOutcome::BadSequence { expect: target, actual: sequence },
                )
            } else {
                let buf = m.buffer + data;
                if buf.len() >= len {
                    (empty_consec_model(), ReasmOutcome::Complete(buf.take(len)))
                } else {
                    (
                        ConsecModel { sequence: Some(target), length: m.length, buffer: buf },
                        ReasmOutcome::Wait,
                    )
                }
            }
        },
    }
}

impl IsoTpContext {
    /// A fresh context: no flow control seen, nothing reassembling.
    pub fn new() -> (r: IsoTpContext)
        ensures
            r.flow_ctrl is None,
            consec_model(r.consecutive) == empty_consec_model(),
    {
        let r = IsoTpContext {
            flow_ctrl: None,
            consecutive: Consecutive { sequence: None, length: None, buffer: Vec::new() },
        };
        proof {
            assert(consec_model(r.consecutive) =~= empty_consec_model());
        }
        r
    }

    /// Clears the flow-control snapshot and the reassembly buffer.
    pub fn reset(&mut self)
        ensures
            final(self).flow_ctrl is None,
            consec_model(final(self).consecutive) == empty_consec_model(),
    {
        self.clear_flow_ctrl();
        self.clear_consecutive();
    }

    /// Forgets the cached flow-control parameters.
    pub fn clear_flow_ctrl(&mut self)
        ensures
            final(self).flow_ctrl is None,
            final(self).consecutive == old(self).consecutive,
    {
        self.flow_ctrl = None;
    }

    /// Caches the parameters of a received flow-control frame, with the
    /// separation time already interpreted into microseconds.
    pub fn update_flow_ctrl(&mut self, ctx: FlowControlContext)
        ensures
            final(self).flow_ctrl == Some(
                FlowCtrl {
                    st_min: crate::spec_st_min_us(ctx.st_min) as u32,
                    block_size: ctx.block_size,
                },
            ),
            final(self).consecutive == old(self).consecutive,
    {
        self.flow_ctrl = Some(FlowCtrl { st_min: ctx.st_min_us(), block_size: ctx.block_size });
    }

    /// Empties the reassembly buffer and forgets length and sequence.
    pub fn clear_consecutive(&mut self)
        ensures
            consec_model(final(self).consecutive) == empty_consec_model(),
            final(self).flow_ctrl == old(self).flow_ctrl,
    {
        self.consecutive.sequence = None;
        self.consecutive.length = None;
        self.consecutive.buffer = Vec::new();
        proof {
            assert(consec_model(self.consecutive) =~= empty_consec_model());
        }
    }

    /// Accepts a first frame: it opens a fresh transfer, replacing any
    /// leftover reassembly state, with the expected length stored and the
    /// buffer seeded with exactly its payload.
    pub fn update_consecutive(&mut self, length: u32, data: Vec<u8>)
        ensures
            consec_model(final(self).consecutive) == spec_feed_first(length as int, data@),
            final(self).flow_ctrl == old(self).flow_ctrl,
    {
        self.consecutive.sequence = None;
        self.consecutive.length = Some(length);
        self.consecutive.buffer = data;
        proof {
            assert(consec_model(self.consecutive) =~= spec_feed_first(length as int, data@));
        }
    }

    /// Accepts one consecutive frame, exactly as [`spec_feed_consecutive`]
    /// describes: sequence checked, bytes accumulated; once enough have
    /// arrived the payload is delivered, truncated to the expected length,
    /// and the reassembly state is cleared.
    pub fn append_consecutive(&mut self, sequence: u8, data: Vec<u8>) -> (r: Result<
        IsoTpEvent,
        Error,
    >)
        ensures
            ({
                let (m1, out) = spec_feed_consecutive(
                    consec_model(old(self).consecutive),
                    sequence,
                    data@,
                );
                &&& consec_model(final(self).consecutive) == m1
                &&& final(self).flow_ctrl == old(self).flow_ctrl
                &&& match out {
                    ReasmOutcome::MixedFrames => r == Result::<IsoTpEvent, Error>::Err(
                        Error::MixFramesError,
                    ),
                    ReasmOutcome::BadSequence { expect, actual } => r == Result::<
                        IsoTpEvent,
                        Error,
                    >::Err(Error::InvalidSequence { actual, expect }),
                    ReasmOutcome::Wait => r == Result::<IsoTpEvent, Error>::Ok(IsoTpEvent::Wait),
                    ReasmOutcome::Complete(bytes) => (r matches Ok(ev) && ev matches
                        IsoTpEvent::DataReceived(v) && v@ == bytes),
                }
            }),
    {
        let ghost m0 = consec_model(self.consecutive);
        if self.consecutive.length.is_none() {
            proof {
                assert(consec_model(self.consecutive) =~= m0);
            }
            return Err(Error::MixFramesError);
        }
        let target = match self.consecutive.sequence {
            Some(v) => if v <= 0x0E {
                v + 1
            } else {
                0
            },
            None => CONSECUTIVE_SEQUENCE_START,
        };
        self.consecutive.sequence = Some(target);
        if sequence != target {
            proof {
                assert(consec_model(self.consecutive) =~= spec_feed_consecutive(
                    m0,
                    sequence,
                    data@,
                ).0);
            }
            return Err(Error::InvalidSequence { expect: target, actual: sequence });
        }
        append_bytes(&mut self.consecutive.buffer, &data);
        let buff_len = self.consecutive.buffer.len();
        let target_len = match self.consecutive.length {
            Some(l) => l as usize,
            None => 0,
        };
        if buff_len >= target_len {
            self.consecutive.buffer.truncate(target_len);
            let out = crate::can::utils::clone_bytes(&self.consecutive.buffer);
            self.consecutive.sequence = None;
            self.consecutive.length = None;
            self.consecutive.buffer = Vec::new();
            proof {
                assert(consec_model(self.consecutive) =~= spec_feed_consecutive(
                    m0,
                    sequence,
                    data@,
                ).0);
            }
            Ok(IsoTpEvent::DataReceived(out))
        } else {
            proof {
                assert(consec_model(self.consecutive) =~= spec_feed_consecutive(
                    m0,
                    sequence,
                    data@,
                ).0);
            }
            Ok(IsoTpEvent::Wait)
        }
    }
}

/// Reassembling a frame stream: one single frame is its own payload; a
/// first frame followed by consecutive frames accumulates, and the stream
/// is accepted only if it completes exactly at its last frame.
pub open spec fn spec_run_cfs(m: ConsecModel, frames: Seq<FrameModel>) -> Option<Seq<u8>>
    decreases frames.len(),
{
    if frames.len() == 0 {
        None
    } else {
        match frames[0] {
            FrameModel::Consecutive { sequence, data } => {
                let (m1, out) = spec_feed_consecutive(m, sequence, data);
                match out {
                    ReasmOutcome::Complete(bytes) => if frames.len() == 1 {
                        Some(bytes)
                    } else {
                        None
                    },
                    ReasmOutcome::Wait => spec_run_cfs(m1, frames.drop_first()),
                    _ => None,
                }
            },
            _ => None,
        }
    }
}

/// The payload a whole frame stream reassembles to, if any.
pub open spec fn spec_reassemble(frames: Seq<FrameModel>) -> Option<Seq<u8>> {
    if frames.len() == 1 {
        match frames[0] {
            FrameModel::Single { data } => Some(data),
            _ => None,
        }
    } else if frames.len() >= 2 {
        match frames[0] {
            FrameModel::First { length, data } => spec_run_cfs(
                spec_feed_first(length, data),
                frames.drop_first(),
            ),
            _ => None,
        }
    } else {
        None
    }
}

/// Offsets of the consecutive frames stay inside the payload, and the last
/// one reaches its end.
proof fn lemma_cf_bounds(len: int, ff: int, cf: int, j: int)
    requires
        1 <= cf,
        ff < len,
        0 <= j < seg_cf_count(len, ff, cf),
    ensures
        ff + j * cf < len,
        len <= ff + seg_cf_count(len, ff, cf) * cf,
{
    let m = len - ff;
    let n = seg_cf_count(len, ff, cf);
    lemma_fundamental_div_mod(m + cf - 1, cf);
    lemma_mod_bound(m + cf - 1, cf);
    assert(cf * n == n * cf) by (nonlinear_arith);
    assert(j * cf <= (n - 1) * cf) by (nonlinear_arith)
        requires
            j <= n - 1,
            cf >= 1,
    ;
    assert((n - 1) * cf == n * cf - cf) by (nonlinear_arith);
}

/// The sequence number after `k` accepted consecutive frames.
proof fn lemma_mod_step(k: int)
    requires
        1 <= k,
    ensures
        spec_next_sequence(if k == 1 {
            None
        } else {
            Some(((k - 1) % 16) as u8)
        }) == (k % 16) as u8,
{
    lemma_mod_bound(k - 1, 16);
    lemma_fundamental_div_mod(k - 1, 16);
    if k == 1 {
        lemma_mod_bound(k, 16);
        lemma_fundamental_div_mod_converse(1, 16, 0, 1);
    } else if (k - 1) % 16 < 0x0F {
        lemma_fundamental_div_mod_converse(k, 16, (k - 1) / 16, (k - 1) % 16 + 1);
    } else {
        lemma_fundamental_div_mod_converse(k, 16, (k - 1) / 16 + 1, 0);
    }
}

/// Feeding the consecutive frames `k + 1 ..` of a segmentation into the
/// state reached after `k` of them completes with exactly the payload.
proof fn lemma_run_cfs_from(p: Seq<u8>, ff: int, cf: int, k: int)
    requires
        1 <= cf,
        1 <= ff < p.len(),
        0 <= k < seg_cf_count(p.len() as int, ff, cf),
    ensures
        spec_run_cfs(
            ConsecModel {
                sequence: if k == 0 {
                    None
                } else {
                    Some((k % 16) as u8)
                },
                length: Some(p.len() as int),
                buffer: p.take(ff + k * cf),
            },
            Seq::new(
                (seg_cf_count(p.len() as int, ff, cf) - k) as nat,
                |i: int| seg_cf_frame(p, ff, cf, k + i + 1),
            ),
        ) == Some(p),
    decreases seg_cf_count(p.len() as int, ff, cf) - k,
{
    let len = p.len() as int;
    let n = seg_cf_count(len, ff, cf);
    let m = ConsecModel {
        sequence: if k == 0 {
            None
        } else {
            Some((k % 16) as u8)
        },
        length: Some(len),
        buffer: p.take(ff + k * cf),
    };
    let frames = Seq::new((n - k) as nat, |i: int| seg_cf_frame(p, ff, cf, k + i + 1));
    lemma_cf_bounds(len, ff, cf, k);
    lemma_mod_bound(k, 16);
    lemma_mod_bound(k + 1, 16);
    assert((k + 1) * cf == k * cf + cf) by (nonlinear_arith);
    let chunk_end = if ff + (k + 1) * cf <= len {
        ff + (k + 1) * cf
    } else {
        len
    };
    let chunk = p.subrange(ff + k * cf, chunk_end);
    assert(frames[0] == seg_cf_frame(p, ff, cf, k + 1));
    lemma_mod_step(k + 1);
    assert(spec_next_sequence(m.sequence) == ((k + 1) % 16) as u8);
    let buf = m.buffer + chunk;
    assert(buf =~= p.take(chunk_end));
    if k + 1 < n {
        lemma_cf_bounds(len, ff, cf, k + 1);
        assert(ff + (k + 1) * cf < len);
        assert(buf.len() < len);
        lemma_run_cfs_from(p, ff, cf, k + 1);
        assert(frames.drop_first() =~= Seq::new(
            (n - (k + 1)) as nat,
            |i: int| seg_cf_frame(p, ff, cf, k + 1 + i + 1),
        ));
    } else {
        // the last chunk reaches the end of the payload
        assert(len <= ff + n * cf);
        assert(chunk_end == len);
        assert(buf =~= p);
        assert(buf.len() >= len);
        assert(buf.take(len) =~= p);
        assert(frames.len() == 1);
    }
}

/// Reassembling the frames the segmenter produces yields the payload: for
/// every payload longer than the first-frame capacity, feeding the first
/// frame and then each consecutive frame in order completes with exactly
/// the original bytes.
pub proof fn lemma_segment_reassemble(p: Seq<u8>, ff: int, cf: int)
    requires
        1 <= cf,
        1 <= ff < p.len(),
    ensures
        spec_reassemble(seg_frames(p, ff, cf)) == Some(p),
{
    let len = p.len() as int;
    let n = seg_cf_count(len, ff, cf);
    let frames = seg_frames(p, ff, cf);
    crate::can::utils::lemma_seg_frames_shape(p, ff, cf);
    assert(frames.len() == 1 + n);
    let m0 = spec_feed_first(len, p.take(ff));
    assert(m0.buffer =~= p.take(ff + 0 * cf));
    lemma_run_cfs_from(p, ff, cf, 0);
    assert(frames.drop_first() =~= Seq::new(
        (n - 0) as nat,
        |i: int| seg_cf_frame(p, ff, cf, 0 + i + 1),
    ));
    assert(m0 =~= ConsecModel {
        sequence: None,
        length: Some(len),
        buffer: p.take(ff + 0 * cf),
    });
}

/// The segment-and-reassemble round trip for the 2004 dialect: every
/// payload from one byte up to the 12-bit limit survives unchanged.
pub proof fn lemma_segment_reassemble_2004(p: Seq<u8>)
    requires
        0 < p.len() <= crate::can::ISO_TP_MAX_LENGTH_2004,
    ensures
        spec_reassemble(std2004::seg_all(p)) == Some(p),
{
    if p.len() > crate::can::SINGLE_FRAME_SIZE_2004 {
        lemma_segment_reassemble(
            p,
            crate::can::FIRST_FRAME_SIZE_2004 as int,
            crate::can::CONSECUTIVE_FRAME_SIZE as int,
        );
    }
}

/// The segment-and-reassemble round trip for the 2016 dialect: every
/// payload from one byte up to the 32-bit limit survives unchanged.
pub proof fn lemma_segment_reassemble_2016(p: Seq<u8>)
    requires
        0 < p.len() <= crate::can::ISO_TP_MAX_LENGTH_2016,
    ensures
        spec_reassemble(std2016::seg_all(p)) == Some(p),
{
    if p.len() > crate::can::SINGLE_FRAME_SIZE_2004 {
        if p.len() <= crate::can::ISO_TP_MAX_LENGTH_2004 {
            lemma_segment_reassemble(
                p,
                crate::can::FIRST_FRAME_SIZE_2004 as int,
                crate::can::CONSECUTIVE_FRAME_SIZE as int,
            );
        } else {
            lemma_segment_reassemble(
                p,
                crate::can::FIRST_FRAME_SIZE_2016 as int,
                crate::can::CONSECUTIVE_FRAME_SIZE as int,
            );
        }
    }
}

} // verus!
