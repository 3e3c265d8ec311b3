use tcpbasics::codec::{CodecError, FRAME_LEN, decode, encode};
use tcpbasics::message::Message;
use tcpbasics::CAPACITY;

#[test]
fn round_trip_simple() {
    let m = Message { payload: b"hello".to_vec(), origin: 0 };
    let bytes = encode(&m);
    assert_eq!(bytes.len(), FRAME_LEN);
    assert_eq!(decode(&bytes), Ok(m));
}

#[test]
fn round_trip_empty_payload() {
    let m = Message { payload: Vec::new(), origin: 1 };
    let bytes = encode(&m);
    assert_eq!(decode(&bytes), Ok(m));
}

#[test]
fn round_trip_full_capacity() {
    let m = Message { payload: vec![0xabu8; CAPACITY], origin: 1 };
    let bytes = encode(&m);
    assert_eq!(decode(&bytes), Ok(m));
}

#[test]
fn frame_layout_is_exact() {
    let m = Message { payload: vec![7u8, 9u8], origin: 1 };
    let bytes = encode(&m);
    assert_eq!(bytes.len(), CAPACITY + 8);
    assert_eq!(&bytes[0..2], &[7u8, 9u8]);
    assert!(bytes[2..CAPACITY].iter().all(|&b| b == 0));
    assert_eq!(&bytes[CAPACITY..CAPACITY + 4], &[0u8, 0, 0, 2]);
    assert_eq!(&bytes[CAPACITY + 4..CAPACITY + 8], &[0u8, 0, 0, 1]);
}

#[test]
fn decode_ignores_padding_and_trailing_bytes() {
    let mut bytes = vec![0u8; FRAME_LEN];
    bytes[0] = b'h';
    bytes[1] = b'i';
    for slot in bytes.iter_mut().take(CAPACITY).skip(2) {
        *slot = 0xee;
    }
    bytes[CAPACITY..CAPACITY + 4].copy_from_slice(&[0, 0, 0, 2]);
    bytes[CAPACITY + 4..CAPACITY + 8].copy_from_slice(&[0, 0, 0, 0]);
    bytes.push(0xff);
    let m = decode(&bytes).unwrap();
    assert_eq!(m.payload, b"hi".to_vec());
    assert_eq!(m.origin, 0);
}

#[test]
fn decode_truncated() {
    assert_eq!(decode(&[]), Err(CodecError::Truncated));
    let m = Message { payload: b"x".to_vec(), origin: 0 };
    let bytes = encode(&m);
    assert_eq!(decode(&bytes[..FRAME_LEN - 1]), Err(CodecError::Truncated));
}

#[test]
fn decode_malformed_length() {
    let mut bytes = vec![0u8; FRAME_LEN];
    // Length word 1025: one past the capacity.
    bytes[CAPACITY..CAPACITY + 4].copy_from_slice(&[0, 0, 4, 1]);
    assert_eq!(decode(&bytes), Err(CodecError::Malformed));
}

#[test]
fn decode_malformed_origin() {
    let mut bytes = vec![0u8; FRAME_LEN];
    bytes[CAPACITY + 4..CAPACITY + 8].copy_from_slice(&[0, 0, 0, 2]);
    assert_eq!(decode(&bytes), Err(CodecError::Malformed));
    bytes[CAPACITY + 4..CAPACITY + 8].copy_from_slice(&[0xff, 0xff, 0xff, 0xff]);
    assert_eq!(decode(&bytes), Err(CodecError::Malformed));
}
