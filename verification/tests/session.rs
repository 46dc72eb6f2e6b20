//! The session core: reassembly, flow control, pacing and timeouts.

use isotp_rs::can::isotp::context::IsoTpContext;
use isotp_rs::can::isotp::CanIsoTp;
use isotp_rs::can::isotp::WritePoll;
use isotp_rs::can::{Address, CanIsoTpFrame};
use isotp_rs::error::Error;
use isotp_rs::{FlowControlContext, FlowControlState, IsoTpEvent};
use isotp_rs::{STATE_ERROR, STATE_IDLE, STATE_SENDING, STATE_WAIT_BUSY, STATE_WAIT_FLOW_CTRL};

fn test_address() -> Address {
    Address { tx_id: 0x7E0, rx_id: 0x7E8, fid: 0x7DF }
}

/// Segmenting a payload and feeding every frame back into a fresh context
/// reproduces the payload.
#[test]
fn test_segment_then_reassemble() {
    let payload: Vec<u8> = (0..200u16).map(|v| (v % 251) as u8).collect();
    let frames = CanIsoTpFrame::from_data(&payload).unwrap();
    let mut ctx = IsoTpContext::new();
    let mut delivered: Option<Vec<u8>> = None;
    for frame in frames {
        match frame {
            CanIsoTpFrame::FirstFrame { length, data } => {
                ctx.update_consecutive(length, data);
            },
            CanIsoTpFrame::ConsecutiveFrame { sequence, data } => {
                match ctx.append_consecutive(sequence, data).unwrap() {
                    IsoTpEvent::DataReceived(bytes) => delivered = Some(bytes),
                    IsoTpEvent::Wait => assert!(delivered.is_none()),
                    _ => panic!("unexpected event"),
                }
            },
            _ => panic!("unexpected frame from the segmenter"),
        }
    }
    assert_eq!(delivered.unwrap(), payload);
}

/// A consecutive frame with no first frame before it is a protocol mix-up.
#[test]
fn test_orphan_consecutive() {
    let mut ctx = IsoTpContext::new();
    assert_eq!(
        ctx.append_consecutive(1, vec![1, 2, 3]).unwrap_err(),
        Error::MixFramesError
    );
}

/// Completion clears the reassembly state: a further consecutive frame is
/// an orphan again, and a new first frame starts cleanly at sequence 1.
#[test]
fn test_buffer_reset_on_completion() {
    let mut ctx = IsoTpContext::new();
    ctx.update_consecutive(8, vec![1, 2, 3, 4, 5, 6]);
    match ctx.append_consecutive(1, vec![7, 8]).unwrap() {
        IsoTpEvent::DataReceived(bytes) => assert_eq!(bytes, vec![1, 2, 3, 4, 5, 6, 7, 8]),
        _ => panic!("expected the completed payload"),
    }
    // the buffer was cleared with the delivery
    assert_eq!(
        ctx.append_consecutive(2, vec![9, 9]).unwrap_err(),
        Error::MixFramesError
    );
    // a new first frame replaces everything and expects sequence 1 again
    ctx.update_consecutive(9, vec![1, 2, 3, 4, 5, 6]);
    assert_eq!(ctx.append_consecutive(1, vec![7, 8, 9]).is_ok(), true);
}

/// A first frame in the middle of a transfer replaces the leftover state.
#[test]
fn test_first_frame_replaces_leftovers() {
    let mut ctx = IsoTpContext::new();
    ctx.update_consecutive(100, vec![0xAA; 6]);
    assert_eq!(ctx.append_consecutive(1, vec![0xAA; 7]).unwrap(), IsoTpEvent::Wait);
    // a fresh first frame discards the partial transfer
    ctx.update_consecutive(8, vec![1, 2, 3, 4, 5, 6]);
    match ctx.append_consecutive(1, vec![7, 8]).unwrap() {
        IsoTpEvent::DataReceived(bytes) => assert_eq!(bytes, vec![1, 2, 3, 4, 5, 6, 7, 8]),
        _ => panic!("expected the completed payload"),
    }
}

/// A consecutive frame with the wrong sequence number names both numbers.
#[test]
fn test_wrong_sequence() {
    let mut ctx = IsoTpContext::new();
    ctx.update_consecutive(20, vec![0u8; 6]);
    assert_eq!(
        ctx.append_consecutive(2, vec![0u8; 7]).unwrap_err(),
        Error::InvalidSequence { actual: 2, expect: 1 }
    );
}

/// Surplus bytes in the final consecutive frame are truncated to the
/// expected length.
#[test]
fn test_truncation_to_expected_length() {
    let mut ctx = IsoTpContext::new();
    ctx.update_consecutive(9, vec![1, 2, 3, 4, 5, 6]);
    match ctx.append_consecutive(1, vec![7, 8, 9, 0xAA, 0xAA, 0xAA, 0xAA]).unwrap() {
        IsoTpEvent::DataReceived(bytes) => {
            assert_eq!(bytes, vec![1, 2, 3, 4, 5, 6, 7, 8, 9]);
        },
        _ => panic!("expected the completed payload"),
    }
}

/// A full receive through the session core: first frame, flow-control
/// answer, consecutive frames, payload delivered.
#[test]
fn test_receive_flow() {
    let mut session = CanIsoTp::new(test_address());
    let payload: Vec<u8> = (0..20u8).collect();
    let frames = CanIsoTpFrame::from_data(&payload).unwrap();

    let mut wire: Vec<Vec<u8>> = Vec::new();
    for frame in frames {
        wire.push(frame.encode(None));
    }

    let out = session.on_frame_received(0x7E8, &wire[0]);
    assert_eq!(out.event, Some(IsoTpEvent::FirstFrameReceived));
    // the answer is the default flow-control frame
    let fc = out.outbound.unwrap();
    assert_eq!(
        fc.encode(None),
        vec![0x30, 0x00, 0x0a, 0xaa, 0xaa, 0xaa, 0xaa, 0xaa]
    );
    assert!(session.state_contains(STATE_SENDING));

    let out = session.on_frame_received(0x7E8, &wire[1]);
    assert_eq!(out.event, Some(IsoTpEvent::Wait));
    let out = session.on_frame_received(0x7E8, &wire[2]);
    assert_eq!(out.event, Some(IsoTpEvent::DataReceived(payload)));
}

/// Frames for other identifiers are ignored.
#[test]
fn test_receive_other_id_ignored() {
    let mut session = CanIsoTp::new(test_address());
    let out = session.on_frame_received(0x123, &vec![0x02, 0x10, 0x01, 0, 0, 0, 0, 0]);
    assert_eq!(out.event, None);
    assert!(out.outbound.is_none());
}

/// The error state is absorbing: after a bad frame nothing is processed
/// until a new write resets it.
#[test]
fn test_error_state_absorbs() {
    let mut session = CanIsoTp::new(test_address());
    // a consecutive frame without a first frame poisons the session
    let out = session.on_frame_received(0x7E8, &vec![0x21, 1, 2, 3, 4, 5, 6, 7]);
    assert_eq!(
        out.event,
        Some(IsoTpEvent::ErrorOccurred(Error::MixFramesError))
    );
    assert!(session.state_contains(STATE_ERROR));
    // now even a good single frame is ignored
    let out = session.on_frame_received(0x7E8, &vec![0x02, 0x10, 0x01, 0, 0, 0, 0, 0]);
    assert_eq!(out.event, None);
    // a new write resets the error state
    session.write_begin(false, &vec![0x01]).unwrap();
    assert_eq!(session.state, STATE_IDLE);
}

/// A frame that does not decode reports the decode error and poisons the
/// session.
#[test]
fn test_receive_undecodable() {
    let mut session = CanIsoTp::new(test_address());
    let out = session.on_frame_received(0x7E8, &vec![0x40, 0x00, 0x00]);
    match out.event {
        Some(IsoTpEvent::ErrorOccurred(Error::InvalidParam(_))) => {},
        other => panic!("unexpected event: {:?}", other),
    }
    assert!(session.state_contains(STATE_ERROR));
}

/// Flow-control frames steer the sender state.
#[test]
fn test_flow_control_steering() {
    let mut session = CanIsoTp::new(test_address());
    session.state_append(STATE_WAIT_FLOW_CTRL);

    // Wait parks the sender busy
    let ev = session.on_flow_ctrl_frame(FlowControlContext::new(FlowControlState::Wait, 0, 0));
    assert_eq!(ev, Some(IsoTpEvent::Wait));
    assert!(session.state_contains(STATE_WAIT_BUSY));

    // Continues releases both waiting bits and caches the parameters
    let ev = session.on_flow_ctrl_frame(FlowControlContext::new(
        FlowControlState::Continues,
        4,
        0x0A,
    ));
    assert_eq!(ev, None);
    assert!(!session.state_contains(STATE_WAIT_BUSY | STATE_WAIT_FLOW_CTRL));
    let fc = session.context.flow_ctrl.unwrap();
    assert_eq!(fc.block_size, 4);
    assert_eq!(fc.st_min, 10_000);

    // Overload aborts
    let ev = session.on_flow_ctrl_frame(FlowControlContext::new(FlowControlState::Overload, 0, 0));
    assert_eq!(ev, Some(IsoTpEvent::ErrorOccurred(Error::OverloadFlow)));
    assert!(session.state_contains(STATE_ERROR));
}

/// Transmit acknowledgements clear the sending bit only for our own
/// identifiers.
#[test]
fn test_transmitted_ack() {
    let mut session = CanIsoTp::new(test_address());
    session.state_append(STATE_SENDING);
    session.on_frame_transmitted(0x123);
    assert!(session.state_contains(STATE_SENDING));
    session.on_frame_transmitted(0x7E0);
    assert!(!session.state_contains(STATE_SENDING));
}

/// Functional addressing carries single frames only.
#[test]
fn test_write_functional_multi_frame_rejected() {
    let mut session = CanIsoTp::new(test_address());
    let small = session.write_begin(true, &vec![1, 2, 3]).unwrap();
    assert_eq!(small.len(), 1);
    let err = session.write_begin(true, &vec![0u8; 20]).unwrap_err();
    assert!(matches!(err, Error::InvalidParam(_)));
    // physical addressing takes the same payload
    let frames = session.write_begin(false, &vec![0u8; 20]).unwrap();
    assert_eq!(frames.len(), 3);
}

/// The waiting decision applies each protocol timer to its state.
#[test]
fn test_write_waiting_poll() {
    let mut session = CanIsoTp::new(test_address());
    assert_eq!(session.write_waiting_poll(0), WritePoll::Proceed);

    session.state_append(STATE_SENDING);
    assert_eq!(session.write_waiting_poll(1000), WritePoll::Pending);
    assert_eq!(
        session.write_waiting_poll(1001),
        WritePoll::Failed(Error::Timeout { value: 1000, unit: "ms" })
    );

    session.state_append(STATE_IDLE);
    session.state_append(STATE_WAIT_BUSY);
    assert_eq!(session.write_waiting_poll(5000), WritePoll::Pending);
    assert_eq!(
        session.write_waiting_poll(5001),
        WritePoll::Failed(Error::Timeout { value: 5000, unit: "ms" })
    );

    session.state_append(STATE_IDLE);
    session.state_append(STATE_WAIT_FLOW_CTRL);
    assert_eq!(
        session.write_waiting_poll(1001),
        WritePoll::Failed(Error::Timeout { value: 1000, unit: "ms" })
    );

    session.state_append(STATE_ERROR);
    assert_eq!(
        session.write_waiting_poll(0),
        WritePoll::Failed(Error::DeviceError)
    );
}

/// Pacing: the separation time is the cached one, and a full block
/// re-enters the wait-for-flow-control state.
#[test]
fn test_write_waiting_pace() {
    let mut session = CanIsoTp::new(test_address());
    // no snapshot: no sleep, no state change
    assert_eq!(session.write_waiting_pace(1), 0);
    assert_eq!(session.state, STATE_IDLE);

    session.context.update_flow_ctrl(FlowControlContext::new(
        FlowControlState::Continues,
        4,
        0x05,
    ));
    assert_eq!(session.write_waiting_pace(1), 5000);
    assert!(!session.state_contains(STATE_WAIT_FLOW_CTRL));
    assert_eq!(session.write_waiting_pace(4), 5000);
    assert!(session.state_contains(STATE_WAIT_FLOW_CTRL));
}

/// The separation-time byte decodes to microseconds, reserved values
/// falling back to 127 ms.
#[test]
fn test_st_min_us() {
    assert_eq!(FlowControlContext::new(FlowControlState::Continues, 0, 0x00).st_min_us(), 10_000);
    assert_eq!(FlowControlContext::new(FlowControlState::Continues, 0, 0x05).st_min_us(), 5_000);
    assert_eq!(FlowControlContext::new(FlowControlState::Continues, 0, 0x7F).st_min_us(), 127_000);
    assert_eq!(FlowControlContext::new(FlowControlState::Continues, 0, 0xF5).st_min_us(), 500);
    assert_eq!(FlowControlContext::new(FlowControlState::Continues, 0, 0x85).st_min_us(), 127_000);
    assert_eq!(FlowControlContext::new(FlowControlState::Continues, 0, 0xFA).st_min_us(), 127_000);
}
