use tlsn_verifier::hex::{decode_hex, encode_hex_prefixed};
use tlsn_verifier::text::{chars_of, parse_i64, text_contains};

#[test]
fn hex_round_trip() {
    assert_eq!(encode_hex_prefixed(&[0x00, 0xab, 0x10, 0xff]), "0x00ab10ff");
    assert_eq!(encode_hex_prefixed(&[]), "0x");
    assert_eq!(decode_hex("0x00AB10ff"), Some(vec![0x00, 0xab, 0x10, 0xff]));
    assert_eq!(decode_hex("00ab"), Some(vec![0x00, 0xab]));
    assert_eq!(decode_hex("0xabc"), None);
    assert_eq!(decode_hex("zz"), None);
}

#[test]
fn integer_parsing() {
    assert_eq!(parse_i64("42"), Some(42));
    assert_eq!(parse_i64("+42"), Some(42));
    assert_eq!(parse_i64("-9223372036854775808"), Some(i64::MIN));
    assert_eq!(parse_i64("9223372036854775808"), None);
    assert_eq!(parse_i64("-"), None);
    assert_eq!(parse_i64(""), None);
    assert_eq!(parse_i64(" 1"), None);
}

#[test]
fn substring_search() {
    assert!(text_contains("hello", "ell"));
    assert!(text_contains("hello", ""));
    assert!(!text_contains("hello", "hey"));
}

#[test]
fn chars_in_order() {
    assert_eq!(chars_of("aé"), vec!['a', 'é']);
}
