//! The frame codec: varints, the 10-byte zero-padded prefix, and whole
//! frames.

use edcs::codec::{decode_frame, decode_prefix, encode_frame, encode_prefix, encode_varint,
    parse_varint, FrameError};

const MAX: u64 = 1 << 20;

#[test]
fn varint_small_value_is_one_byte() {
    let mut buf = Vec::new();
    encode_varint(5, &mut buf);
    assert_eq!(buf, vec![5]);
}

#[test]
fn varint_three_hundred() {
    let mut buf = Vec::new();
    encode_varint(300, &mut buf);
    assert_eq!(buf, vec![0xAC, 0x02]);
    let parsed = parse_varint(&buf, 0).unwrap();
    assert_eq!(parsed, (300, 2));
}

#[test]
fn varint_u64_max_round_trips() {
    let mut buf = Vec::new();
    encode_varint(u64::MAX, &mut buf);
    assert_eq!(buf.len(), 10);
    let parsed = parse_varint(&buf, 0).unwrap();
    assert_eq!(parsed.0, u64::MAX);
}

#[test]
fn varint_unterminated_is_rejected() {
    assert!(parse_varint(&[0x80, 0x80], 0).is_none());
}

#[test]
fn prefix_is_ten_bytes_zero_padded() {
    let p = encode_prefix(300);
    assert_eq!(p, vec![0xAC, 0x02, 0, 0, 0, 0, 0, 0, 0, 0]);
    assert_eq!(decode_prefix(&p, MAX), Ok(300));
}

#[test]
fn zero_length_prefix_is_accepted() {
    // a prefix whose varint decodes to zero stands for a zero-byte payload
    let p = [0u8; 10];
    assert_eq!(decode_prefix(&p, MAX), Ok(0));
}

#[test]
fn oversized_prefix_is_rejected_from_the_header_alone() {
    // the length check needs only the 10 header bytes, no payload
    let p = encode_prefix(MAX + 1);
    assert_eq!(decode_prefix(&p, MAX), Err(FrameError::OversizedFrame));
}

#[test]
fn nonzero_padding_is_a_framing_error() {
    let mut p = encode_prefix(3);
    p[9] = 7;
    assert_eq!(decode_prefix(&p, MAX), Err(FrameError::MalformedPrefix));
}

#[test]
fn short_prefix_is_truncated() {
    assert_eq!(decode_prefix(&[1, 2, 3], MAX), Err(FrameError::Truncated));
}

#[test]
fn frame_round_trips() {
    let payload = vec![9u8, 8, 7, 6];
    let framed = encode_frame(&payload);
    assert_eq!(framed.len(), 14);
    let (out, used) = decode_frame(&framed, MAX).unwrap();
    assert_eq!(out, payload);
    assert_eq!(used, 14);
}

#[test]
fn empty_frame_round_trips() {
    let framed = encode_frame(&[]);
    assert_eq!(framed, vec![0u8; 10]);
    let (out, used) = decode_frame(&framed, MAX).unwrap();
    assert!(out.is_empty());
    assert_eq!(used, 10);
}

#[test]
fn frame_with_short_payload_is_truncated() {
    let framed = encode_frame(&[1, 2, 3, 4]);
    assert_eq!(decode_frame(&framed[..12], MAX), Err(FrameError::Truncated));
}

#[test]
fn oversized_frame_is_rejected() {
    let framed = encode_frame(&vec![0u8; 32]);
    assert_eq!(decode_frame(&framed, 31), Err(FrameError::OversizedFrame));
}
