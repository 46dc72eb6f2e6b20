//! The 2016-edition codec: escaped lengths and the wider segmenter.

use isotp_rs::can::utils::std2016;
use isotp_rs::can::CanIsoTpFrame;
use isotp_rs::error::Error;

#[test]
fn test_decode_single_escape() {
    // a zero length nibble reads the length from the second byte
    let data = [0x00, 0x04, 0x01, 0x02, 0x03, 0x04, 0xAA, 0xAA];
    match std2016::decode(&data).unwrap() {
        CanIsoTpFrame::SingleFrame { data } => assert_eq!(data, vec![0x01, 0x02, 0x03, 0x04]),
        _ => panic!("Invalid frame type"),
    }
    // the short form still works
    let data = [0x02, 0x10, 0x01, 0xAA, 0xAA, 0xAA, 0xAA, 0xAA];
    match std2016::decode(&data).unwrap() {
        CanIsoTpFrame::SingleFrame { data } => assert_eq!(data, vec![0x10, 0x01]),
        _ => panic!("Invalid frame type"),
    }
    // an escape length that exceeds the buffer is invalid
    let bad = [0x00, 0x07, 0x01, 0x02, 0x03, 0x04, 0xAA, 0xAA];
    assert_eq!(
        std2016::decode(&bad).unwrap_err(),
        Error::InvalidPdu(bad.to_vec())
    );
}

#[test]
fn test_decode_first_escape() {
    // a zero 12-bit length reads four big-endian length bytes
    let data = [0x10, 0x00, 0x00, 0x01, 0x00, 0x00, 0xAB, 0xCD];
    match std2016::decode(&data).unwrap() {
        CanIsoTpFrame::FirstFrame { length, data } => {
            assert_eq!(length, 0x10000);
            assert_eq!(data, vec![0xAB, 0xCD]);
        },
        _ => panic!("Invalid frame type"),
    }
    // the 12-bit form is unchanged
    let data = [0x10, 0x0F, 0x62, 0xF1, 0x87, 0x44, 0x56, 0x43];
    match std2016::decode(&data).unwrap() {
        CanIsoTpFrame::FirstFrame { length, data } => {
            assert_eq!(length, 0x0F);
            assert_eq!(data, vec![0x62, 0xF1, 0x87, 0x44, 0x56, 0x43]);
        },
        _ => panic!("Invalid frame type"),
    }
}

#[test]
fn test_encode_first_escape() {
    let bytes = std2016::encode_first(0x10000, vec![0xAB, 0xCD]);
    assert_eq!(bytes, vec![0x10, 0x00, 0x00, 0x01, 0x00, 0x00, 0xAB, 0xCD]);
    let bytes = std2016::encode_first(0x0F, vec![0x62, 0xF1, 0x87, 0x44, 0x56, 0x43]);
    assert_eq!(bytes, vec![0x10, 0x0F, 0x62, 0xF1, 0x87, 0x44, 0x56, 0x43]);
}

#[test]
fn test_from_data_long_payload() {
    // beyond the 12-bit limit the first frame escapes and carries 2 bytes
    let payload = vec![0x42u8; 0x1000];
    let frames = std2016::from_data(&payload).unwrap();
    match &frames[0] {
        CanIsoTpFrame::FirstFrame { length, data } => {
            assert_eq!(*length, 0x1000);
            assert_eq!(data.len(), 2);
        },
        _ => panic!("Invalid frame type"),
    }
    // 2 + 585 * 7 = 4097 >= 4096: one first frame and 585 consecutive ones
    assert_eq!(frames.len(), 1 + 585);
    match &frames[frames.len() - 1] {
        CanIsoTpFrame::ConsecutiveFrame { data, .. } => assert_eq!(data.len(), 4096 - 2 - 584 * 7),
        _ => panic!("Invalid frame type"),
    }
    // within the 12-bit limit it segments exactly like the 2004 dialect
    let payload = vec![0x42u8; 0xFFF];
    let frames = std2016::from_data(&payload).unwrap();
    match &frames[0] {
        CanIsoTpFrame::FirstFrame { length, data } => {
            assert_eq!(*length, 0xFFF);
            assert_eq!(data.len(), 6);
        },
        _ => panic!("Invalid frame type"),
    }
}

#[test]
fn test_new_single_2016() {
    match std2016::new_single(&[1, 2, 3, 4, 5, 6]).unwrap() {
        CanIsoTpFrame::SingleFrame { data } => assert_eq!(data, vec![1, 2, 3, 4, 5, 6]),
        _ => panic!("Invalid frame type"),
    }
    assert_eq!(std2016::new_single(&[]).unwrap_err(), Error::EmptyPdu);
    assert_eq!(
        std2016::new_single(&[0u8; 7]).unwrap_err(),
        Error::LengthOutOfRange(7)
    );
}
