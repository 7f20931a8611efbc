//! Length-prefixed frames.
use nosv::framing::{
    decode_frame_len, encode_frame_len, is_reply, make_reply, FrameError, FRAME_HEADER_LEN,
    MAX_FRAME_SIZE,
};
use nosv::io::IoErrorKind;

#[test]
fn frame_lengths_round_trip() {
    for payload_len in [0, 1, 255, MAX_FRAME_SIZE] {
        let header = encode_frame_len(payload_len).expect("valid frame length");
        assert_eq!(header.len(), FRAME_HEADER_LEN);
        assert_eq!(decode_frame_len(header).expect("valid frame header"), payload_len);
    }
    assert_eq!(encode_frame_len(0x1234), Ok([0, 0, 0x12, 0x34]));
    assert_eq!(encode_frame_len(MAX_FRAME_SIZE), Ok([0, 1, 0, 0]));
}

#[test]
fn local_oversized_frame_is_rejected() {
    let error = encode_frame_len(MAX_FRAME_SIZE + 1).expect_err("oversized local frame");
    assert_eq!(error.kind(), IoErrorKind::InvalidInput);
    assert_eq!(error, FrameError::Local(65537));
    assert_eq!(error.describe(), "frame length 65537 exceeds the 65536-byte limit");
}

#[test]
fn peer_oversized_frame_is_rejected() {
    let header = u32::try_from(MAX_FRAME_SIZE + 1).expect("test length fits u32").to_be_bytes();
    let error = decode_frame_len(header).expect_err("oversized peer frame");
    assert_eq!(error.kind(), IoErrorKind::InvalidData);
    assert_eq!(error.describe(), "peer frame length 65537 exceeds the 65536-byte limit");
    assert_eq!(decode_frame_len([0xff; 4]), Err(FrameError::Peer(0xffff_ffff)));
}

#[test]
fn replies_are_upper_case() {
    let mut payload = b"owned buffers {1} \xff".to_vec();
    make_reply(&mut payload);
    assert_eq!(payload, b"OWNED BUFFERS {1} \xff");
    assert!(is_reply(b"owned buffers {1} \xff", &payload));
    assert!(is_reply(b"", b""));
    assert!(!is_reply(b"ping", b"PONG"));
    assert!(!is_reply(b"ping", b"PIN"));
}
