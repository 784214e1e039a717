use moos_sys::text::{decode_c_text, encode_c_text, is_c_encodable, text_length};

#[test]
fn a_text_is_encoded_with_a_closing_nul() {
    assert_eq!(encode_c_text("abc"), Some(vec![b'a', b'b', b'c', 0]));
}

#[test]
fn the_empty_text_is_encoded_as_one_nul() {
    assert_eq!(encode_c_text(""), Some(vec![0]));
}

#[test]
fn a_text_beyond_ascii_is_encoded_as_utf8() {
    assert_eq!(encode_c_text("h\u{e9}"), Some(vec![b'h', 0xc3, 0xa9, 0]));
}

#[test]
fn a_text_with_a_nul_is_not_encoded() {
    assert_eq!(encode_c_text("a\0b"), None);
    assert_eq!(encode_c_text("\0"), None);
    assert_eq!(encode_c_text("ab\0"), None);
}

#[test]
fn encodable_is_without_nul() {
    assert!(is_c_encodable(""));
    assert!(is_c_encodable("Food"));
    assert!(is_c_encodable("h\u{e9}llo"));
    assert!(!is_c_encodable("a\0b"));
    assert!(!is_c_encodable("\0"));
}

#[test]
fn the_text_ends_at_the_first_nul() {
    assert_eq!(text_length(&[b'a', b'b', 0, b'c', 0]), 2);
    assert_eq!(text_length(&[0]), 0);
    assert_eq!(text_length(&[0, b'a']), 0);
}

#[test]
fn a_buffer_without_nul_is_text_to_its_end() {
    assert_eq!(text_length(&[b'a', b'b']), 2);
    assert_eq!(text_length(&[]), 0);
    assert_eq!(decode_c_text(&[b'a', b'b']), Some("ab".to_string()));
}

#[test]
fn a_buffer_is_decoded_up_to_its_first_nul() {
    assert_eq!(decode_c_text(&[b'b', b'i', b't', 0]), Some("bit".to_string()));
    assert_eq!(decode_c_text(&[b'a', 0, b'b', 0]), Some("a".to_string()));
    assert_eq!(decode_c_text(&[0]), Some(String::new()));
    assert_eq!(decode_c_text(&[]), Some(String::new()));
}

#[test]
fn bytes_after_the_nul_are_not_looked_at() {
    assert_eq!(decode_c_text(&[b'a', 0, 0xff, 0xfe]), Some("a".to_string()));
}

#[test]
fn a_buffer_that_is_not_utf8_is_not_decoded() {
    assert_eq!(decode_c_text(&[0xff, 0]), None);
    assert_eq!(decode_c_text(&[b'a', 0xc3, 0]), None);
    assert_eq!(decode_c_text(&[0xed, 0xa0, 0x80, 0]), None);
}

#[test]
fn decoding_gives_back_what_was_encoded() {
    for text in ["", "X", "bitter", "h\u{e9}llo w\u{f6}rld", "\u{65e5}\u{672c}\u{8a9e}", "\u{1f600}"] {
        let buf = encode_c_text(text).unwrap();
        assert_eq!(buf.len(), text.len() + 1);
        assert_eq!(text_length(&buf), text.len());
        assert_eq!(decode_c_text(&buf), Some(text.to_string()));
    }
}
