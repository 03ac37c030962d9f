use message_bridge::{classify, decode_value, parse_envelope, Layout, MessageBridgeError};

fn legacy(origin: u16, sender: [u8; 32], sequence: u64, payload: &[u8]) -> Vec<u8> {
    let mut b = vec![1u8; 16];
    b.extend_from_slice(&origin.to_be_bytes());
    b.extend_from_slice(&sender);
    b.extend_from_slice(&sequence.to_be_bytes());
    b.push(1);
    b.extend_from_slice(payload);
    b
}

fn current(origin: u16, sender: [u8; 32], sequence: u64, declared: u32, payload: &[u8]) -> Vec<u8> {
    let mut b = b"vaa".to_vec();
    b.extend_from_slice(&[0u8; 46]);
    b.extend_from_slice(&sequence.to_le_bytes());
    b.extend_from_slice(&origin.to_le_bytes());
    b.extend_from_slice(&sender);
    b.extend_from_slice(&declared.to_le_bytes());
    b.extend_from_slice(payload);
    b
}

#[test]
fn classify_reads_leading_marker() {
    assert_eq!(classify(b"vaa"), Layout::Current);
    assert_eq!(classify(b"va"), Layout::Legacy);
    assert_eq!(classify(&[]), Layout::Legacy);
    assert_eq!(classify(&legacy(2, [5; 32], 3, &[])), Layout::Legacy);
    assert_eq!(classify(&current(2, [5; 32], 3, 0, &[])), Layout::Current);
}

#[test]
fn legacy_of_exactly_header_size_has_empty_payload() {
    let buf = legacy(7, [9; 32], 42, &[]);
    assert_eq!(buf.len(), 59);
    let p = parse_envelope(&buf, 7, 42).ok().unwrap();
    assert_eq!(p.origin_network, 7);
    assert_eq!(p.sender_address, [9; 32]);
    assert_eq!(p.sequence, 42);
    assert!(p.payload.is_empty());
    assert_eq!(decode_value(true, &p.payload, 1), Err(MessageBridgeError::InvalidPayload));
    assert_eq!(decode_value(false, &p.payload, 1), Err(MessageBridgeError::InvalidPayload));
}

#[test]
fn legacy_fields_are_big_endian() {
    let buf = legacy(0x0102, [3; 32], 0x0102_0304_0506_0708, &[8, 9]);
    let p = parse_envelope(&buf, 0x0102, 0x0102_0304_0506_0708).ok().unwrap();
    assert_eq!(p.payload, vec![8, 9]);
}

#[test]
fn legacy_shorter_than_header_is_refused() {
    let buf = legacy(7, [9; 32], 42, &[]);
    for n in 0..59 {
        assert_eq!(
            parse_envelope(&buf[..n], 7, 42).err(),
            Some(MessageBridgeError::EnvelopeTooShort)
        );
    }
}

#[test]
fn current_fields_are_little_endian() {
    let buf = current(0x0203, [4; 32], 0x1122_3344_5566_7788, 3, &[1, 2, 3, 4]);
    let p = parse_envelope(&buf, 0x0203, 0x1122_3344_5566_7788).ok().unwrap();
    assert_eq!(p.origin_network, 0x0203);
    assert_eq!(p.sender_address, [4; 32]);
    assert_eq!(p.sequence, 0x1122_3344_5566_7788);
    assert_eq!(p.payload, vec![1, 2, 3]);
}

#[test]
fn current_shorter_than_header_is_refused() {
    let buf = current(7, [9; 32], 42, 0, &[]);
    assert_eq!(buf.len(), 95);
    assert!(parse_envelope(&buf, 7, 42).is_ok());
    for n in 3..95 {
        assert_eq!(
            parse_envelope(&buf[..n], 7, 42).err(),
            Some(MessageBridgeError::EnvelopeTooShort)
        );
    }
}

#[test]
fn current_declared_length_one_past_end_is_truncated() {
    let buf = current(7, [9; 32], 42, 6, &[0; 5]);
    assert_eq!(
        parse_envelope(&buf, 7, 42).err(),
        Some(MessageBridgeError::TruncatedEnvelope)
    );
    let exact = current(7, [9; 32], 42, 5, &[0; 5]);
    assert!(parse_envelope(&exact, 7, 42).is_ok());
}

#[test]
fn current_far_oversized_declared_length_is_truncated() {
    for declared in [1u32, 1000, u32::MAX / 2, u32::MAX] {
        let buf = current(7, [9; 32], 42, declared, &[]);
        assert_eq!(
            parse_envelope(&buf, 7, 42).err(),
            Some(MessageBridgeError::TruncatedEnvelope)
        );
        assert_eq!(
            parse_envelope(&buf, 8, 43).err(),
            Some(MessageBridgeError::TruncatedEnvelope)
        );
    }
}

#[test]
fn asserted_origin_or_sequence_must_match() {
    let a = legacy(7, [9; 32], 42, &[]);
    assert_eq!(parse_envelope(&a, 8, 42).err(), Some(MessageBridgeError::EnvelopeMismatch));
    assert_eq!(parse_envelope(&a, 7, 41).err(), Some(MessageBridgeError::EnvelopeMismatch));
    let b = current(7, [9; 32], 42, 0, &[]);
    assert_eq!(parse_envelope(&b, 8, 42).err(), Some(MessageBridgeError::EnvelopeMismatch));
    assert_eq!(parse_envelope(&b, 7, 43).err(), Some(MessageBridgeError::EnvelopeMismatch));
}
