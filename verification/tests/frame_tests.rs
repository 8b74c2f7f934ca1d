use hook_relay::frame::{
    decode_from_buffer, encode, find_terminator, FrameError, READ_BUFFER_SIZE, TERMINATOR,
};

#[test]
fn encode_appends_one_terminator() {
    assert_eq!(encode("hello"), Ok(vec![b'h', b'e', b'l', b'l', b'o', 0]));
}

#[test]
fn encode_of_empty_text_is_the_terminator_alone() {
    assert_eq!(encode(""), Ok(vec![0]));
}

#[test]
fn encode_keeps_multibyte_text() {
    assert_eq!(encode("\u{e9}\u{20ac}"), Ok(vec![0xc3, 0xa9, 0xe2, 0x82, 0xac, 0]));
}

#[test]
fn encode_rejects_embedded_terminator() {
    assert_eq!(encode("a\0b"), Err(FrameError::EmbeddedTerminator));
    assert_eq!(encode("\0"), Err(FrameError::EmbeddedTerminator));
    assert_eq!(encode("tail\0"), Err(FrameError::EmbeddedTerminator));
}

#[test]
fn decode_undoes_encode() {
    for text in ["", "hello", "x/y = 10/-3", "\u{e9}t\u{e9}", "\u{1f600} ok", "a b\tc\n"] {
        let bytes = encode(text).unwrap();
        let (decoded, complete) = decode_from_buffer(&bytes, bytes.len());
        assert_eq!(decoded, text);
        assert!(complete);
    }
}

#[test]
fn decode_undoes_encode_inside_a_larger_buffer() {
    let bytes = encode("hello").unwrap();
    let mut buffer = vec![0x41u8; READ_BUFFER_SIZE];
    buffer[..bytes.len()].copy_from_slice(&bytes);
    let (decoded, complete) = decode_from_buffer(&buffer, bytes.len());
    assert_eq!(decoded, "hello");
    assert!(complete);
}

#[test]
fn decode_without_terminator_is_incomplete() {
    let buffer = [b'a', b'b', b'c', b'd'];
    assert_eq!(decode_from_buffer(&buffer, 4), ("abcd".to_string(), false));
    assert_eq!(decode_from_buffer(&buffer, 2), ("ab".to_string(), false));
}

#[test]
fn decode_of_no_bytes_is_incomplete_and_empty() {
    let buffer = [0u8; 16];
    assert_eq!(decode_from_buffer(&buffer, 0), (String::new(), false));
    let nothing: [u8; 0] = [];
    assert_eq!(decode_from_buffer(&nothing, 0), (String::new(), false));
}

#[test]
fn decode_sees_only_the_valid_bytes() {
    let buffer = [b'a', b'b', 0, b'c'];
    assert_eq!(decode_from_buffer(&buffer, 2), ("ab".to_string(), false));
    assert_eq!(decode_from_buffer(&buffer, 3), ("ab".to_string(), true));
}

#[test]
fn decode_ignores_what_follows_the_terminator() {
    let buffer = [b'o', b'n', b'e', 0, b't', b'w', b'o', 0];
    assert_eq!(decode_from_buffer(&buffer, 8), ("one".to_string(), true));
}

#[test]
fn decode_of_a_leading_terminator_is_the_empty_text() {
    let buffer = [0u8, b'x'];
    assert_eq!(decode_from_buffer(&buffer, 2), (String::new(), true));
}

#[test]
fn decode_replaces_malformed_bytes() {
    let buffer = [0xffu8, b'a', 0];
    assert_eq!(decode_from_buffer(&buffer, 3), ("\u{fffd}a".to_string(), true));
    let cut = [b'a', 0xe2, 0x82];
    assert_eq!(decode_from_buffer(&cut, 3), ("a\u{fffd}".to_string(), false));
}

#[test]
fn find_terminator_returns_the_first_one() {
    let buffer = [1u8, 2, 0, 3, 0];
    assert_eq!(find_terminator(&buffer, 5), Some(2));
    assert_eq!(find_terminator(&buffer, 3), Some(2));
    assert_eq!(find_terminator(&buffer, 2), None);
    assert_eq!(find_terminator(&buffer, 0), None);
}

#[test]
fn framing_constants() {
    assert_eq!(TERMINATOR, 0);
    assert_eq!(READ_BUFFER_SIZE, 8192);
}
