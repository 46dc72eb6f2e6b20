//! The ISO-TP session core.
//!
//! [`CanIsoTp`] holds the address, the state bitset and the reassembly and
//! flow-control context of one peer pair, and decides every protocol step:
//! what a received frame does to the state, which flow-control answer to
//! enqueue, how transmission is paced and when it times out.  The
//! surrounding driver performs the sends, sleeps and clock reads and feeds
//! the results back in.

pub mod context;

use vstd::prelude::*;
use vstd::string::StringExecFns;

use crate::FlowControlContext;
use crate::FlowControlState;
use crate::IsoTpEvent;
use crate::STATE_ERROR;
use crate::STATE_IDLE;
use crate::STATE_SENDING;
use crate::STATE_WAIT_BUSY;
use crate::STATE_WAIT_FLOW_CTRL;
use crate::spec_st_min_us;
use crate::can::Address;
use crate::can::CanIsoTpFrame;
use crate::can::FrameModel;
use crate::can::ISO_TP_MAX_LENGTH_2004;
use crate::can::SINGLE_FRAME_SIZE_2004;
use crate::can::isotp::context::IsoTpContext;
use crate::can::isotp::context::FlowCtrl;
use crate::can::isotp::context::ReasmOutcome;
use crate::can::isotp::context::consec_model;
use crate::can::isotp::context::empty_consec_model;
use crate::can::isotp::context::spec_feed_consecutive;
use crate::can::isotp::context::spec_feed_first;
use crate::can::utils::std2004;
use crate::constant::P2_STAR_ISO14229;
use crate::constant::TIMEOUT_AS_ISO15765_2;
use crate::constant::TIMEOUT_CR_ISO15765_2;
use crate::error::Error;

verus! {

/// The state bits after appending `flags`: appending nothing resets to
/// idle, appending the error bit makes the state exactly the error state,
/// anything else is a union.
pub open spec fn spec_state_append(state: u8, flags: u8) -> u8 {
    if flags == STATE_IDLE {
        STATE_IDLE
    } else if flags & STATE_ERROR != 0 {
        STATE_ERROR
    } else {
        state | flags
    }
}

/// Bit-level facts about the state flags that the contracts rely on.
proof fn lemma_state_flag_bits()
    ensures
        STATE_WAIT_FLOW_CTRL & STATE_ERROR == 0,
        STATE_WAIT_BUSY & STATE_ERROR == 0,
        STATE_SENDING & STATE_ERROR == 0,
        STATE_ERROR & STATE_ERROR == STATE_ERROR,
        (STATE_WAIT_BUSY | STATE_WAIT_FLOW_CTRL) & STATE_ERROR == 0,
        (STATE_WAIT_BUSY | STATE_WAIT_FLOW_CTRL) != 0,
{
    assert(0x04u8 & 0x80 == 0 && 0x10u8 & 0x80 == 0 && 0x40u8 & 0x80 == 0 && 0x80u8 & 0x80 == 0x80
        && (0x10u8 | 0x04) & 0x80 == 0 && (0x10u8 | 0x04) != 0) by (bit_vector);
}

/// The model of the flow-control frame the receiver answers a first frame
/// with.
pub open spec fn spec_default_fc_frame() -> FrameModel {
    FrameModel::FlowControl {
        context: FlowControlContext {
            state: FlowControlState::Continues,
            block_size: 0x00,
            st_min: 10,
        },
    }
}

/// What the pacing gate decides before one frame is sent.
#[derive(Debug, Clone, PartialEq)]
pub enum WritePoll {
    /// All gating states are clear; send the next frame.
    Proceed,
    /// Still gated; observe the state again.
    Pending,
    /// The transfer failed; stop with this error.
    Failed(Error),
}

/// What one received frame asks the driver to do: an event to hand to the
/// listener and a frame to enqueue to the link.
#[derive(Debug, Clone)]
pub struct RxOutcome {
    pub event: Option<IsoTpEvent>,
    pub outbound: Option<CanIsoTpFrame>,
}

/// The session core of one peer pair.
#[derive(Debug, Clone)]
pub struct CanIsoTp {
    /// The address triple the session is bound to.
    pub address: Address,
    /// The state bitset.
    pub state: u8,
    /// Flow-control snapshot and reassembly buffer.
    pub context: IsoTpContext,
}

impl CanIsoTp {
    /// A fresh idle session bound to `address`.
    pub fn new(address: Address) -> (r: CanIsoTp)
        ensures
            r.address == address,
            r.state == STATE_IDLE,
            r.context.flow_ctrl is None,
            consec_model(r.context.consecutive) == empty_consec_model(),
    {
        CanIsoTp { address, state: STATE_IDLE, context: IsoTpContext::new() }
    }

    /// Rebinds the session to another address.
    pub fn update_address(&mut self, address: Address)
        ensures
            final(self).address == address,
            final(self).state == old(self).state,
            final(self).context == old(self).context,
    {
        self.address = address;
    }

    /// Whether any of `flags` is set.
    pub fn state_contains(&self, flags: u8) -> (r: bool)
        ensures
            r == (self.state & flags != 0),
    {
        self.state & flags != 0
    }

    /// Adds `flags` to the state; the error bit overrides everything, and
    /// appending the idle state resets it.
    pub fn state_append(&mut self, flags: u8)
        ensures
            final(self).state == spec_state_append(old(self).state, flags),
            final(self).address == old(self).address,
            final(self).context == old(self).context,
    {
        if flags == STATE_IDLE {
            self.state = STATE_IDLE;
        } else if flags & STATE_ERROR != 0 {
            self.state = STATE_ERROR;
        } else {
            self.state = self.state | flags;
        }
    }

    /// Removes `flags` from the state.
    pub fn state_remove(&mut self, flags: u8)
        ensures
            final(self).state == (old(self).state & !flags),
            final(self).address == old(self).address,
            final(self).context == old(self).context,
    {
        self.state = self.state & !flags;
    }

    /// Clears the flow-control snapshot and the reassembly buffer.
    pub fn context_reset(&mut self)
        ensures
            final(self).context.flow_ctrl is None,
            consec_model(final(self).context.consecutive) == empty_consec_model(),
            final(self).state == old(self).state,
            final(self).address == old(self).address,
    {
        self.context.reset();
    }

    /// A single frame delivers its payload at once.
    pub fn on_single_frame(&self, data: Vec<u8>) -> (r: IsoTpEvent)
        ensures
            r matches IsoTpEvent::DataReceived(v) && v@ == data@,
    {
        IsoTpEvent::DataReceived(data)
    }

    /// A first frame opens reassembly and must be answered with the
    /// default flow-control frame, which the caller enqueues; the session
    /// is sending until that frame is acknowledged.
    pub fn on_first_frame(&mut self, length: u32, data: Vec<u8>) -> (r: CanIsoTpFrame)
        ensures
            consec_model(final(self).context.consecutive) == spec_feed_first(
                length as int,
                data@,
            ),
            final(self).context.flow_ctrl == old(self).context.flow_ctrl,
            final(self).state == spec_state_append(old(self).state, STATE_SENDING),
            final(self).address == old(self).address,
            r@ == spec_default_fc_frame(),
    {
        proof {
            lemma_state_flag_bits();
        }
        self.context.update_consecutive(length, data);
        self.state_append(STATE_SENDING);
        CanIsoTpFrame::default_flow_ctrl_frame()
    }

    /// A consecutive frame feeds the reassembler: the completed payload is
    /// delivered and the reassembly state cleared; an unexpected or
    /// orphaned frame puts the session in the error state.
    pub fn on_consecutive_frame(&mut self, sequence: u8, data: Vec<u8>) -> (r: IsoTpEvent)
        ensures
            final(self).address == old(self).address,
            ({
                let (m1, out) = spec_feed_consecutive(
                    consec_model(old(self).context.consecutive),
                    sequence,
                    data@,
                );
                match out {
                    ReasmOutcome::Complete(bytes) => {
                        &&& (r matches IsoTpEvent::DataReceived(v) && v@ == bytes)
                        &&& final(self).state == old(self).state
                        &&& final(self).context.flow_ctrl == old(self).context.flow_ctrl
                        &&& consec_model(final(self).context.consecutive)
                            == empty_consec_model()
                    },
                    ReasmOutcome::Wait => {
                        &&& r == IsoTpEvent::Wait
                        &&& final(self).state == old(self).state
                        &&& final(self).context.flow_ctrl == old(self).context.flow_ctrl
                        &&& consec_model(final(self).context.consecutive) == m1
                    },
                    ReasmOutcome::MixedFrames => {
                        &&& r == IsoTpEvent::ErrorOccurred(Error::MixFramesError)
                        &&& final(self).state == STATE_ERROR
                        &&& final(self).context.flow_ctrl == old(self).context.flow_ctrl
                        &&& consec_model(final(self).context.consecutive) == m1
                    },
                    ReasmOutcome::BadSequence { expect, actual } => {
                        &&& r == IsoTpEvent::ErrorOccurred(
                            Error::InvalidSequence { actual, expect },
                        )
                        &&& final(self).state == STATE_ERROR
                        &&& final(self).context.flow_ctrl == old(self).context.flow_ctrl
                        &&& consec_model(final(self).context.consecutive) == m1
                    },
                }
            }),
    {
        proof {
            lemma_state_flag_bits();
        }
        match self.context.append_consecutive(sequence, data) {
            Ok(event) => event,
            Err(e) => {
                self.state_append(STATE_ERROR);
                IsoTpEvent::ErrorOccurred(e)
            },
        }
    }

    /// A flow-control frame steers the sender: `Continues` releases it and
    /// caches the pacing parameters, `Wait` parks it busy, `Overload`
    /// aborts the transfer.
    pub fn on_flow_ctrl_frame(&mut self, ctx: FlowControlContext) -> (r: Option<IsoTpEvent>)
        ensures
            final(self).address == old(self).address,
            match ctx.state {
                FlowControlState::Continues => {
                    &&& final(self).state == (old(self).state & !(STATE_WAIT_BUSY
                        | STATE_WAIT_FLOW_CTRL))
                    &&& final(self).context.flow_ctrl == Some(
                        FlowCtrl {
                            st_min: spec_st_min_us(ctx.st_min) as u32,
                            block_size: ctx.block_size,
                        },
                    )
                    &&& final(self).context.consecutive == old(self).context.consecutive
                    &&& r is None
                },
                FlowControlState::Wait => {
                    &&& final(self).state == spec_state_append(
                        old(self).state,
                        STATE_WAIT_BUSY,
                    )
                    &&& final(self).context == old(self).context
                    &&& r == Some(IsoTpEvent::Wait)
                },
                FlowControlState::Overload => {
                    &&& final(self).state == STATE_ERROR
                    &&& final(self).context == old(self).context
                    &&& r == Some(IsoTpEvent::ErrorOccurred(Error::OverloadFlow))
                },
            },
    {
        proof {
            lemma_state_flag_bits();
        }
        match ctx.state {
            FlowControlState::Continues => {
                self.state_remove(STATE_WAIT_BUSY | STATE_WAIT_FLOW_CTRL);
                self.context.update_flow_ctrl(ctx);
                None
            },
            FlowControlState::Wait => {
                self.state_append(STATE_WAIT_BUSY);
                Some(IsoTpEvent::Wait)
            },
            FlowControlState::Overload => {
                self.state_append(STATE_ERROR);
                Some(IsoTpEvent::ErrorOccurred(Error::OverloadFlow))
            },
        }
    }

    /// The link acknowledged a frame: if it was ours, we are no longer
    /// sending.
    pub fn on_frame_transmitted(&mut self, id: u32)
        ensures
            final(self).address == old(self).address,
            final(self).context == old(self).context,
            final(self).state == if id == old(self).address.tx_id || id == old(
                self,
            ).address.fid {
                old(self).state & !STATE_SENDING
            } else {
                old(self).state
            },
    {
        if id == self.address.tx_id || id == self.address.fid {
            self.state_remove(STATE_SENDING);
        }
    }

    /// The link could not carry a frame: the transfer is over.
    pub fn transmit_failed(&mut self) -> (r: IsoTpEvent)
        ensures
            final(self).address == old(self).address,
            final(self).context == old(self).context,
            final(self).state == STATE_ERROR,
            r == IsoTpEvent::ErrorOccurred(Error::DeviceError),
    {
        proof {
            lemma_state_flag_bits();
        }
        self.state_append(STATE_ERROR);
        IsoTpEvent::ErrorOccurred(Error::DeviceError)
    }

    /// One received link frame, dispatched by its decoded type.  Frames
    /// for other identifiers, and every frame while the session is in the
    /// error state, are ignored.  A frame that does not decode puts the
    /// session in the error state.
    pub fn on_frame_received(&mut self, id: u32, data: &Vec<u8>) -> (r: RxOutcome)
        ensures
            final(self).address == old(self).address,
            ({
                let s = data@;
                let c0 = *old(self);
                let c1 = *final(self);
                if c0.state & STATE_ERROR != 0 || id != c0.address.rx_id {
                    &&& c1 == c0
                    &&& r.event is None
                    &&& r.outbound is None
                } else if !std2004::dec_ok(s) {
                    &&& c1.state == STATE_ERROR
                    &&& c1.context == c0.context
                    &&& (r.event matches Some(ev) && ev matches IsoTpEvent::ErrorOccurred(e)
                        && std2004::dec_err_matches(s, e))
                    &&& r.outbound is None
                } else {
                    match std2004::dec_frame(s) {
                        FrameModel::Single { data: d } => {
                            &&& c1 == c0
                            &&& (r.event matches Some(ev) && ev matches IsoTpEvent::DataReceived(
                                v,
                            ) && v@ == d)
                            &&& r.outbound is None
                        },
                        FrameModel::First { length, data: d } => {
                            &&& consec_model(c1.context.consecutive) == spec_feed_first(
                                length,
                                d,
                            )
                            &&& c1.context.flow_ctrl == c0.context.flow_ctrl
                            &&& c1.state == spec_state_append(c0.state, STATE_SENDING)
                            &&& r.event == Some(IsoTpEvent::FirstFrameReceived)
                            &&& (r.outbound matches Some(f) && f@ == spec_default_fc_frame())
                        },
                        FrameModel::Consecutive { sequence, data: d } => {
                            let (m1, out) = spec_feed_consecutive(
                                consec_model(c0.context.consecutive),
                                sequence,
                                d,
                            );
                            &&& r.outbound is None
                            &&& match out {
                                ReasmOutcome::Complete(bytes) => {
                                    &&& (r.event matches Some(ev) && ev matches
                                        IsoTpEvent::DataReceived(v) && v@ == bytes)
                                    &&& c1.state == c0.state
                                    &&& c1.context.flow_ctrl == c0.context.flow_ctrl
                                    &&& consec_model(c1.context.consecutive)
                                        == empty_consec_model()
                                },
                                ReasmOutcome::Wait => {
                                    &&& r.event == Some(IsoTpEvent::Wait)
                                    &&& c1.state == c0.state
                                    &&& c1.context.flow_ctrl == c0.context.flow_ctrl
                                    &&& consec_model(c1.context.consecutive) == m1
                                },
                                ReasmOutcome::MixedFrames => {
                                    &&& r.event == Some(
                                        IsoTpEvent::ErrorOccurred(Error::MixFramesError),
                                    )
                                    &&& c1.state == STATE_ERROR
                                    &&& c1.context.flow_ctrl == c0.context.flow_ctrl
                                    &&& consec_model(c1.context.consecutive) == m1
                                },
                                ReasmOutcome::BadSequence { expect, actual } => {
                                    &&& r.event == Some(
                                        IsoTpEvent::ErrorOccurred(
                                            Error::InvalidSequence { actual, expect },
                                        ),
                                    )
                                    &&& c1.state == STATE_ERROR
                                    &&& c1.context.flow_ctrl == c0.context.flow_ctrl
                                    &&& consec_model(c1.context.consecutive) == m1
                                },
                            }
                        },
                        FrameModel::FlowControl { context: fc } => {
                            &&& r.outbound is None
                            &&& match fc.state {
                                FlowControlState::Continues => {
                                    &&& c1.state == (c0.state & !(STATE_WAIT_BUSY
                                        | STATE_WAIT_FLOW_CTRL))
                                    &&& c1.context.flow_ctrl == Some(
                                        FlowCtrl {
                                            st_min: spec_st_min_us(fc.st_min) as u32,
                                            block_size: fc.block_size,
                                        },
                                    )
                                    &&& c1.context.consecutive == c0.context.consecutive
                                    &&& r.event is None
                                },
                                FlowControlState::Wait => {
                                    &&& c1.state == spec_state_append(
                                        c0.state,
                                        STATE_WAIT_BUSY,
                                    )
                                    &&& c1.context == c0.context
                                    &&& r.event == Some(IsoTpEvent::Wait)
                                },
                                FlowControlState::Overload => {
                                    &&& c1.state == STATE_ERROR
                                    &&& c1.context == c0.context
                                    &&& r.event == Some(
                                        IsoTpEvent::ErrorOccurred(Error::OverloadFlow),
                                    )
                                },
                            }
                        },
                    }
                }
            }),
    {
        proof {
            lemma_state_flag_bits();
        }
        if self.state_contains(STATE_ERROR) || id != self.address.rx_id {
            return RxOutcome { event: None, outbound: None };
        }
        match CanIsoTpFrame::decode(data.as_slice()) {
            Err(e) => {
                self.state_append(STATE_ERROR);
                RxOutcome { event: Some(IsoTpEvent::ErrorOccurred(e)), outbound: None }
            },
            Ok(CanIsoTpFrame::SingleFrame { data: d }) => {
                let event = self.on_single_frame(d);
                RxOutcome { event: Some(event), outbound: None }
            },
            Ok(CanIsoTpFrame::FirstFrame { length, data: d }) => {
                let fc = self.on_first_frame(length, d);
                RxOutcome { event: Some(IsoTpEvent::FirstFrameReceived), outbound: Some(fc) }
            },
            Ok(CanIsoTpFrame::ConsecutiveFrame { sequence, data: d }) => {
                let event = self.on_consecutive_frame(sequence, d);
                RxOutcome { event: Some(event), outbound: None }
            },
            Ok(CanIsoTpFrame::FlowControlFrame(fc)) => {
                let event = self.on_flow_ctrl_frame(fc);
                RxOutcome { event, outbound: None }
            },
        }
    }

    /// Begins a transmission: resets the state and the context, segments
    /// the payload, and rejects a functional-addressing request that would
    /// need more than a single frame.
    pub fn write_begin(&mut self, functional: bool, data: &Vec<u8>) -> (r: Result<
        Vec<CanIsoTpFrame>,
        Error,
    >)
        ensures
            final(self).address == old(self).address,
            final(self).state == STATE_IDLE,
            final(self).context.flow_ctrl is None,
            consec_model(final(self).context.consecutive) == empty_consec_model(),
            ({
                let s = data@;
                match r {
                    Ok(frames) => {
                        &&& 1 <= s.len() <= ISO_TP_MAX_LENGTH_2004
                        &&& (functional ==> s.len() <= SINGLE_FRAME_SIZE_2004)
                        &&& frames.deep_view() == std2004::seg_all(s)
                    },
                    Err(e) => {
                        if s.len() == 0 {
                            e == Error::EmptyPdu
                        } else if s.len() > ISO_TP_MAX_LENGTH_2004 {
                            e == Error::LengthOutOfRange(s.len() as usize)
                        } else {
                            functional && s.len() > SINGLE_FRAME_SIZE_2004 && e matches
                                Error::InvalidParam(_)
                        }
                    },
                }
            }),
    {
        self.state_append(STATE_IDLE);
        self.context_reset();
        let frames = match CanIsoTpFrame::from_data(data.as_slice()) {
            Ok(f) => f,
            Err(e) => {
                return Err(e);
            },
        };
        if functional && frames.len() > 1 {
            proof {
                // a payload that fits one single frame segments to one frame,
                // so more than one frame means the payload was longer
                if data@.len() <= SINGLE_FRAME_SIZE_2004 {
                    assert(frames.deep_view().len() == 1);
                }
            }
            return Err(Error::InvalidParam(functional_param_msg()));
        }
        proof {
            if data@.len() > SINGLE_FRAME_SIZE_2004 {
                crate::can::utils::lemma_seg_frames_shape(
                    data@,
                    crate::can::FIRST_FRAME_SIZE_2004 as int,
                    crate::can::CONSECUTIVE_FRAME_SIZE as int,
                );
            }
        }
        Ok(frames)
    }

    /// The pacing step before one consecutive frame is sent: with a
    /// flow-control snapshot, the caller must sleep the returned number of
    /// microseconds first, and after each full block of `block_size`
    /// consecutive frames the sender waits for flow control again.
    /// `index` counts the consecutive frames already sent.
    pub fn write_waiting_pace(&mut self, index: usize) -> (sleep_us: u32)
        ensures
            final(self).address == old(self).address,
            final(self).context == old(self).context,
            match old(self).context.flow_ctrl {
                None => final(self).state == old(self).state && sleep_us == 0,
                Some(fc) => {
                    &&& sleep_us == fc.st_min
                    &&& final(self).state == if fc.block_size > 0 && index > 0 && index as int
                        % (fc.block_size as int) == 0 {
                        spec_state_append(old(self).state, STATE_WAIT_FLOW_CTRL)
                    } else {
                        old(self).state
                    }
                },
            },
    {
        match self.context.flow_ctrl {
            None => 0,
            Some(fc) => {
                if fc.block_size > 0 && index > 0 && index % (fc.block_size as usize) == 0 {
                    self.state_append(STATE_WAIT_FLOW_CTRL);
                }
                fc.st_min
            },
        }
    }

    /// The waiting decision: given the milliseconds elapsed since this
    /// frame's wait began, either proceed, keep waiting, or fail with the
    /// timer that expired (A_s while sending, P2* while the peer is busy,
    /// C_r while awaiting flow control) or with the sticky error state.
    pub fn write_waiting_poll(&self, elapsed_ms: u64) -> (r: WritePoll)
        ensures
            ({
                let st = self.state;
                if st & STATE_ERROR != 0 {
                    r == WritePoll::Failed(Error::DeviceError)
                } else if st & STATE_SENDING != 0 {
                    if elapsed_ms > TIMEOUT_AS_ISO15765_2 as u64 {
                        r matches WritePoll::Failed(e) && e matches Error::Timeout {
                            value,
                            unit,
                        } && value == TIMEOUT_AS_ISO15765_2 as u64 && unit@ == "ms"@
                    } else {
                        r == WritePoll::Pending
                    }
                } else if st & STATE_WAIT_BUSY != 0 {
                    if elapsed_ms > P2_STAR_ISO14229 as u64 {
                        r matches WritePoll::Failed(e) && e matches Error::Timeout {
                            value,
                            unit,
                        } && value == P2_STAR_ISO14229 as u64 && unit@ == "ms"@
                    } else {
                        r == WritePoll::Pending
                    }
                } else if st & STATE_WAIT_FLOW_CTRL != 0 {
                    if elapsed_ms > TIMEOUT_CR_ISO15765_2 as u64 {
                        r matches WritePoll::Failed(e) && e matches Error::Timeout {
                            value,
                            unit,
                        } && value == TIMEOUT_CR_ISO15765_2 as u64 && unit@ == "ms"@
                    } else {
                        r == WritePoll::Pending
                    }
                } else {
                    r == WritePoll::Proceed
                }
            }),
    {
        if self.state_contains(STATE_ERROR) {
            WritePoll::Failed(Error::DeviceError)
        } else if self.state_contains(STATE_SENDING) {
            if elapsed_ms > TIMEOUT_AS_ISO15765_2 as u64 {
                WritePoll::Failed(Error::Timeout { value: TIMEOUT_AS_ISO15765_2 as u64, unit: "ms" })
            } else {
                WritePoll::Pending
            }
        } else if self.state_contains(STATE_WAIT_BUSY) {
            if elapsed_ms > P2_STAR_ISO14229 as u64 {
                WritePoll::Failed(Error::Timeout { value: P2_STAR_ISO14229 as u64, unit: "ms" })
            } else {
                WritePoll::Pending
            }
        } else if self.state_contains(STATE_WAIT_FLOW_CTRL) {
            if elapsed_ms > TIMEOUT_CR_ISO15765_2 as u64 {
                WritePoll::Failed(Error::Timeout { value: TIMEOUT_CR_ISO15765_2 as u64, unit: "ms" })
            } else {
                WritePoll::Pending
            }
        } else {
            WritePoll::Proceed
        }
    }
}

/// Message used when a multi-frame payload is written with functional
/// addressing, which only single frames may use.
fn functional_param_msg() -> String {
    String::from_str("functional addressing requires a single frame")
}

} // verus!
