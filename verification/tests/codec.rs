use bridge_core::codec::{encode_message, hex_encode, is_hex_str, push_u64_le, str_eq};
use bridge_core::types::CrossChainMessage;

fn le_bytes(n: u64) -> Vec<u8> {
    let mut out = Vec::new();
    push_u64_le(&mut out, n);
    out
}

#[test]
fn u64_little_endian_layout() {
    assert_eq!(le_bytes(0), vec![0, 0, 0, 0, 0, 0, 0, 0]);
    assert_eq!(le_bytes(1), vec![1, 0, 0, 0, 0, 0, 0, 0]);
    assert_eq!(le_bytes(0x0102), vec![2, 1, 0, 0, 0, 0, 0, 0]);
    assert_eq!(
        le_bytes(u64::MAX),
        vec![0xff, 0xff, 0xff, 0xff, 0xff, 0xff, 0xff, 0xff]
    );
}

#[test]
fn message_encoding_layout() {
    let message = CrossChainMessage {
        nonce: 2,
        source_chain: "a".to_string(),
        target_chain: "b".to_string(),
        message_type: "t".to_string(),
        sender: vec![1, 2],
        payload: vec![3],
    };

    let mut expected = Vec::new();
    expected.extend(le_bytes(2));
    expected.extend(le_bytes(1));
    expected.push(b'a');
    expected.extend(le_bytes(1));
    expected.push(b'b');
    expected.extend(le_bytes(1));
    expected.push(b't');
    expected.extend(le_bytes(2));
    expected.extend([1, 2]);
    expected.extend(le_bytes(1));
    expected.push(3);

    assert_eq!(encode_message(&message), expected);
}

#[test]
fn encoding_distinguishes_field_boundaries() {
    let first = CrossChainMessage {
        nonce: 1,
        source_chain: "ab".to_string(),
        target_chain: "c".to_string(),
        message_type: "t".to_string(),
        sender: vec![],
        payload: vec![],
    };
    let second = CrossChainMessage {
        nonce: 1,
        source_chain: "a".to_string(),
        target_chain: "bc".to_string(),
        message_type: "t".to_string(),
        sender: vec![],
        payload: vec![],
    };
    assert_ne!(encode_message(&first), encode_message(&second));
}

#[test]
fn hex_encoding_layout() {
    assert_eq!(hex_encode(&[]), Vec::<u8>::new());
    assert_eq!(hex_encode(&[0x00, 0xff, 0x1a]), b"00ff1a".to_vec());
    assert_eq!(hex_encode(&[0xde, 0xad, 0xbe, 0xef]), b"deadbeef".to_vec());
}

#[test]
fn hex_validity() {
    assert!(is_hex_str(""));
    assert!(is_hex_str("00aaFF"));
    assert!(is_hex_str("1234567890abcdefABCDEF00"));
    assert!(!is_hex_str("abc"));
    assert!(!is_hex_str("0g"));
    assert!(!is_hex_str("zz"));
    assert!(!is_hex_str("00 11"));
}

#[test]
fn string_equality_by_characters() {
    assert!(str_eq("", ""));
    assert!(str_eq("abc", "abc"));
    assert!(!str_eq("abc", "abd"));
    assert!(!str_eq("abc", "abcd"));
    assert!(str_eq("héllo", "héllo"));
    assert!(!str_eq("héllo", "hello"));
}
