use muxr_core::herdr::wire::{check_consumed, frame_payload, read_frame, FramingError, MAX_FRAME_SIZE};

#[test]
fn framing_writes_a_little_endian_length_prefix() {
    let framed = frame_payload(&vec![0xAA, 0xBB, 0xCC]).unwrap();
    assert_eq!(framed, vec![3, 0, 0, 0, 0xAA, 0xBB, 0xCC]);
    let big = vec![0u8; 300];
    let framed = frame_payload(&big).unwrap();
    assert_eq!(&framed[..4], &[0x2C, 0x01, 0, 0]);
}

#[test]
fn frame_round_trips_through_read_frame() {
    let payload = b"hello wire".to_vec();
    let mut stream = frame_payload(&payload).unwrap();
    stream.extend_from_slice(b"trailing");
    let (back, consumed) = read_frame(&stream).unwrap();
    assert_eq!(back, payload);
    assert_eq!(consumed, 4 + payload.len());
}

#[test]
fn read_frame_refuses_short_and_oversized_frames() {
    assert_eq!(read_frame(&[1, 0]), Err(FramingError::UnexpectedEof));
    assert_eq!(read_frame(&[5, 0, 0, 0, 1]), Err(FramingError::UnexpectedEof));
    let claimed = MAX_FRAME_SIZE + 1;
    let prefix = (claimed as u32).to_le_bytes();
    assert_eq!(
        read_frame(&prefix),
        Err(FramingError::Oversized { claimed, max: MAX_FRAME_SIZE })
    );
}

#[test]
fn framing_error_messages() {
    assert_eq!(
        FramingError::Oversized { claimed: 9, max: 4 }.message(),
        "frame length 9 exceeds maximum 4"
    );
    assert_eq!(FramingError::UnexpectedEof.message(), "unexpected end of stream");
    assert!(check_consumed(5, 5).is_ok());
    match check_consumed(3, 5) {
        Err(FramingError::Bincode(m)) => {
            assert_eq!(m, "decoded 3 bytes but frame claimed 5 — trailing bytes not allowed")
        }
        other => panic!("expected a trailing-bytes refusal, got {other:?}"),
    }
}
