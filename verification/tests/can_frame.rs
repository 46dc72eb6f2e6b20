//! The frame codec and the segmenter on the wire examples.

use isotp_rs::can::{CanIsoTpFrame, CAN_FRAME_MAX_SIZE, CONSECUTIVE_FRAME_SIZE, DEFAULT_PADDING, FIRST_FRAME_SIZE_2004};
use isotp_rs::can::utils::can_fd_resize;
use isotp_rs::error::Error;
use isotp_rs::FlowControlState;

#[test]
fn test_single() {
    let data: [u8; 8] = [0x02, 0x10, 0x01, 0x00, 0x00, 0x00, 0x00, 0x00];
    let frame = CanIsoTpFrame::decode(&data).unwrap();
    match frame.clone() {
        CanIsoTpFrame::SingleFrame { data } => {
            assert_eq!(data, vec![0x10, 0x01]);
        },
        _ => {
            panic!("Invalid frame type");
        },
    }
    assert_eq!(frame.encode(Some(0x00)), data.to_vec());

    let frame = CanIsoTpFrame::SingleFrame { data: vec![0x10, 0x01] };
    assert_eq!(frame.encode(Some(0x00)), data.to_vec());
}

#[test]
fn test_first() {
    let data: [u8; 8] = [0x10, 0x0f, 0x62, 0xf1, 0x87, 0x44, 0x56, 0x43];
    let frame = CanIsoTpFrame::decode(&data).unwrap();
    match frame.clone() {
        CanIsoTpFrame::FirstFrame { length, data } => {
            assert_eq!(length, 0x0f);
            assert_eq!(data, vec![0x62, 0xf1, 0x87, 0x44, 0x56, 0x43]);
        },
        _ => {
            panic!("Invalid frame type");
        },
    }
    assert_eq!(frame.encode(None), data.to_vec());

    let frame = CanIsoTpFrame::FirstFrame {
        length: 0x0f,
        data: vec![0x62, 0xf1, 0x87, 0x44, 0x56, 0x43],
    };
    assert_eq!(frame.encode(None), data.to_vec());
}

#[test]
fn test_consecutive() {
    let data: [u8; 8] = [0x21, 0x37, 0x45, 0x32, 0x30, 0x30, 0x30, 0x30];
    let frame = CanIsoTpFrame::decode(&data).unwrap();
    match frame.clone() {
        CanIsoTpFrame::ConsecutiveFrame { sequence, data } => {
            assert_eq!(sequence, 1);
            assert_eq!(data, vec![0x37, 0x45, 0x32, 0x30, 0x30, 0x30, 0x30]);
        },
        _ => {
            panic!("Invalid frame type");
        },
    }
    assert_eq!(frame.encode(None), data.to_vec());

    let frame = CanIsoTpFrame::ConsecutiveFrame {
        sequence: 1,
        data: vec![0x37, 0x45, 0x32, 0x30, 0x30, 0x30, 0x30],
    };
    assert_eq!(frame.encode(None), data.to_vec());
}

#[test]
fn test_flow_control() {
    let data: [u8; 8] = [0x30, 0x80, 0x01, 0x55, 0x55, 0x55, 0x55, 0x55];
    let frame = CanIsoTpFrame::decode(&data).unwrap();
    match frame.clone() {
        CanIsoTpFrame::FlowControlFrame(context) => {
            assert_eq!(context.state(), FlowControlState::Continues);
            assert_eq!(context.block_size(), 0x80);
            assert_eq!(context.st_min(), 0x01);
        },
        _ => {
            panic!("Invalid frame type");
        },
    }
    assert_eq!(frame.encode(Some(0x55)), data.to_vec());

    let frame = CanIsoTpFrame::default_flow_ctrl_frame();
    assert_eq!(
        frame.encode(Some(0x55)),
        vec![0x30, 0x00, 0x0a, 0x55, 0x55, 0x55, 0x55, 0x55]
    );
}

#[test]
fn test_data_to_multi() {
    let data: [u8; 15] = [
        0x62, 0xf1, 0x87, 0x44, 0x56, 0x43, 0x37, 0x45, 0x32, 0x30, 0x30, 0x30, 0x30, 0x30, 0x37,
    ];
    let frames = CanIsoTpFrame::from_data(&data).unwrap();
    for (index, frame) in frames.into_iter().enumerate() {
        match index {
            0 => {
                assert_eq!(
                    frame.encode(None),
                    vec![0x10, 0x0f, 0x62, 0xf1, 0x87, 0x44, 0x56, 0x43]
                );
            },
            1 => {
                assert_eq!(
                    frame.encode(None),
                    vec![0x21, 0x37, 0x45, 0x32, 0x30, 0x30, 0x30, 0x30]
                );
            },
            2 => assert_eq!(
                frame.encode(None),
                vec![0x22, 0x30, 0x37, 0xaa, 0xaa, 0xaa, 0xaa, 0xaa]
            ),
            _ => panic!(),
        }
    }

    let mut size = 0x96;
    let data = vec![0x30; size];
    let frames = CanIsoTpFrame::from_data(&data).unwrap();
    for (index, frame) in frames.into_iter().enumerate() {
        match index {
            0 => {
                size -= FIRST_FRAME_SIZE_2004;
                assert_eq!(
                    frame.encode(None),
                    vec![0x10, 0x96, 0x30, 0x30, 0x30, 0x30, 0x30, 0x30]
                )
            },
            1..=15 => {
                size -= CONSECUTIVE_FRAME_SIZE;
                let expect = vec![0x20 + index as u8, 0x30, 0x30, 0x30, 0x30, 0x30, 0x30, 0x30];
                assert_eq!(frame.encode(None), expect);
            },
            _ => {
                if size > CONSECUTIVE_FRAME_SIZE {
                    size -= CONSECUTIVE_FRAME_SIZE;
                    let expect =
                        vec![0x20 + (index % 16) as u8, 0x30, 0x30, 0x30, 0x30, 0x30, 0x30, 0x30];
                    assert_eq!(frame.encode(None), expect);
                } else {
                    let mut expect = vec![0x20 + (index % 16) as u8];
                    for _ in 0..size {
                        expect.push(0x30);
                    }
                    expect.resize(CAN_FRAME_MAX_SIZE, DEFAULT_PADDING);
                    assert_eq!(frame.encode(None), expect);
                }
            },
        }
    }
}

#[test]
fn test_decode_short_inputs() {
    assert_eq!(CanIsoTpFrame::decode(&[]).unwrap_err(), Error::EmptyPdu);
    assert_eq!(
        CanIsoTpFrame::decode(&[0x02]).unwrap_err(),
        Error::InvalidPdu(vec![0x02])
    );
    assert_eq!(
        CanIsoTpFrame::decode(&[0x02, 0x10]).unwrap_err(),
        Error::InvalidPdu(vec![0x02, 0x10])
    );
}

#[test]
fn test_decode_errors() {
    // a single frame whose length nibble exceeds the buffer
    let bad = [0x07, 0x01, 0x02];
    assert_eq!(
        CanIsoTpFrame::decode(&bad).unwrap_err(),
        Error::InvalidPdu(bad.to_vec())
    );
    // a buffer longer than a classical CAN frame
    let long = [0x02u8; 9];
    assert_eq!(
        CanIsoTpFrame::decode(&long).unwrap_err(),
        Error::LengthOutOfRange(9)
    );
    // a first frame must be exactly 8 bytes
    assert_eq!(
        CanIsoTpFrame::decode(&[0x10, 0x0f, 0x62]).unwrap_err(),
        Error::InvalidDataLength { actual: 3, expect: 8 }
    );
    // an unknown frame-type nibble
    assert!(matches!(
        CanIsoTpFrame::decode(&[0x40, 0x00, 0x00]).unwrap_err(),
        Error::InvalidParam(_)
    ));
    // a flow-control state nibble out of range
    assert!(matches!(
        CanIsoTpFrame::decode(&[0x33, 0x00, 0x00]).unwrap_err(),
        Error::InvalidParam(_)
    ));
}

#[test]
fn test_codec_round_trip() {
    // every well-formed frame survives encode-then-decode, pad regardless
    let frames = vec![
        CanIsoTpFrame::SingleFrame { data: vec![0x11, 0x22, 0x33] },
        CanIsoTpFrame::FirstFrame { length: 0xFFF, data: vec![1, 2, 3, 4, 5, 6] },
        CanIsoTpFrame::ConsecutiveFrame { sequence: 15, data: vec![9, 8, 7, 6, 5, 4, 3] },
        CanIsoTpFrame::flow_ctrl_frame(FlowControlState::Wait, 4, 0xF3),
    ];
    for frame in frames {
        let encoded = frame.clone().encode(Some(0x77));
        let decoded = CanIsoTpFrame::decode(&encoded).unwrap();
        match (frame, decoded) {
            (
                CanIsoTpFrame::SingleFrame { data: a },
                CanIsoTpFrame::SingleFrame { data: b },
            ) => assert_eq!(a, b),
            (
                CanIsoTpFrame::FirstFrame { length: la, data: a },
                CanIsoTpFrame::FirstFrame { length: lb, data: b },
            ) => {
                assert_eq!(la, lb);
                assert_eq!(a, b);
            },
            (
                CanIsoTpFrame::ConsecutiveFrame { sequence: sa, data: a },
                CanIsoTpFrame::ConsecutiveFrame { sequence: sb, data: b },
            ) => {
                assert_eq!(sa, sb);
                assert_eq!(a, b);
            },
            (
                CanIsoTpFrame::FlowControlFrame(a),
                CanIsoTpFrame::FlowControlFrame(b),
            ) => assert_eq!(a, b),
            _ => panic!("frame type changed in the round trip"),
        }
    }
}

#[test]
fn test_single_frame_builder() {
    match CanIsoTpFrame::single_frame(&[1, 2, 3]).unwrap() {
        CanIsoTpFrame::SingleFrame { data } => assert_eq!(data, vec![1, 2, 3]),
        _ => panic!("Invalid frame type"),
    }
    assert_eq!(
        CanIsoTpFrame::single_frame(&[]).unwrap_err(),
        Error::EmptyPdu
    );
    assert_eq!(
        CanIsoTpFrame::single_frame(&[0u8; 8]).unwrap_err(),
        Error::LengthOutOfRange(8)
    );
}

#[test]
fn test_from_data_bounds() {
    assert_eq!(CanIsoTpFrame::from_data(&[]).unwrap_err(), Error::EmptyPdu);
    let too_long = vec![0u8; 0x1000];
    assert_eq!(
        CanIsoTpFrame::from_data(&too_long).unwrap_err(),
        Error::LengthOutOfRange(0x1000)
    );
    // seven bytes still fit one single frame
    let frames = CanIsoTpFrame::from_data(&[1, 2, 3, 4, 5, 6, 7]).unwrap();
    assert_eq!(frames.len(), 1);
    assert!(matches!(frames[0], CanIsoTpFrame::SingleFrame { .. }));
    // eight bytes need a first frame and one consecutive frame
    let frames = CanIsoTpFrame::from_data(&[1, 2, 3, 4, 5, 6, 7, 8]).unwrap();
    assert_eq!(frames.len(), 2);
    assert!(matches!(frames[0], CanIsoTpFrame::FirstFrame { .. }));
    assert!(matches!(frames[1], CanIsoTpFrame::ConsecutiveFrame { .. }));
}

#[test]
fn test_can_fd_resize() {
    // sizes quantize up to the next legal CAN-FD payload length
    assert_eq!(can_fd_resize(0), Some(8));
    assert_eq!(can_fd_resize(3), Some(8));
    assert_eq!(can_fd_resize(8), Some(8));
    assert_eq!(can_fd_resize(9), Some(12));
    assert_eq!(can_fd_resize(13), Some(16));
    assert_eq!(can_fd_resize(25), Some(32));
    assert_eq!(can_fd_resize(33), Some(48));
    assert_eq!(can_fd_resize(49), Some(64));
    assert_eq!(can_fd_resize(64), Some(64));
    assert_eq!(can_fd_resize(65), None);
}

#[test]
fn test_segmentation_counts_and_sequences() {
    // 6 + 14 * 7 + 1 bytes: a first frame and 15 consecutive frames
    let data = vec![0xAB; 6 + 14 * 7 + 1];
    let frames = CanIsoTpFrame::from_data(&data).unwrap();
    assert_eq!(frames.len(), 16);
    // sequence numbers rotate 1, 2, ..., 15, 0, 1, ...
    let data = vec![0xCD; 6 + 17 * 7];
    let frames = CanIsoTpFrame::from_data(&data).unwrap();
    assert_eq!(frames.len(), 18);
    for (index, frame) in frames.iter().enumerate().skip(1) {
        match frame {
            CanIsoTpFrame::ConsecutiveFrame { sequence, data } => {
                assert_eq!(*sequence, (index % 16) as u8);
                assert_eq!(data.len(), 7);
            },
            _ => panic!("Invalid frame type"),
        }
    }
}
