use wry_ffi::string::{
    append_decimal, append_signed_decimal, c_str_to_str, c_str_to_string, has_nul,
    string_to_c_string,
};

#[test]
fn zero_character_is_found() {
    assert!(!has_nul(""));
    assert!(!has_nul("abc \u{1F600}"));
    assert!(has_nul("\0"));
    assert!(has_nul("abc\0"));
    assert!(has_nul("\0abc"));
    assert!(has_nul("a\u{e9}\0c"));
}

#[test]
fn text_becomes_a_c_string() {
    assert_eq!(string_to_c_string(""), Some(vec![0]));
    assert_eq!(string_to_c_string("ab"), Some(vec![b'a', b'b', 0]));
    assert_eq!(string_to_c_string("\u{e9}"), Some(vec![0xc3, 0xa9, 0]));
    assert_eq!(string_to_c_string("a\0b"), None);
}

#[test]
fn bytes_become_a_text() {
    assert_eq!(c_str_to_string(None), None);
    assert_eq!(c_str_to_string(Some(b"".as_slice())), Some(String::new()));
    assert_eq!(c_str_to_string(Some(b"hello".as_slice())), Some("hello".to_string()));
    assert_eq!(
        c_str_to_string(Some([0xe6, 0x97, 0xa5].as_slice())),
        Some("\u{65e5}".to_string())
    );
    assert_eq!(c_str_to_string(Some([0xff].as_slice())), None);
    assert_eq!(c_str_to_string(Some([0xe6, 0x97].as_slice())), None);
    assert_eq!(c_str_to_str(Some(b"hi".as_slice())), Some("hi"));
    assert_eq!(c_str_to_str(Some([0xc0, 0x80].as_slice())), None);
    assert_eq!(c_str_to_str(None), None);
}

#[test]
fn c_string_round_trip() {
    let text = "quotes \" and \u{1F600}";
    let bytes = string_to_c_string(text).unwrap();
    assert_eq!(bytes.last(), Some(&0));
    assert_eq!(c_str_to_string(Some(&bytes[..bytes.len() - 1])), Some(text.to_string()));
}

#[test]
fn numbers_are_written_in_decimal() {
    for value in [0u64, 1, 9, 10, 11, 99, 100, 12345, u64::MAX] {
        let mut out = "n=".to_string();
        append_decimal(&mut out, value);
        assert_eq!(out, format!("n={}", value));
    }
    for value in [0i32, 1, -1, 10, -10, i32::MAX, i32::MIN] {
        let mut out = String::new();
        append_signed_decimal(&mut out, value);
        assert_eq!(out, value.to_string());
    }
}
