use xelis::encoding::{from_hex, push_decimal, to_hex};

#[test]
fn hex_encodes_lowercase_high_nibble_first() {
    assert_eq!(to_hex(&[0x00, 0x0f, 0xa5, 0xff]), "000fa5ff");
    assert_eq!(to_hex(&[]), "");
}

#[test]
fn hex_decodes_either_case() {
    assert_eq!(from_hex("000fA5fF"), Some(vec![0x00, 0x0f, 0xa5, 0xff]));
    assert_eq!(from_hex(""), Some(vec![]));
}

#[test]
fn hex_rejects_odd_length_and_non_digits() {
    assert_eq!(from_hex("abc"), None);
    assert_eq!(from_hex("zz"), None);
    assert_eq!(from_hex("0g"), None);
    assert_eq!(from_hex("é0"), None);
}

#[test]
fn hex_roundtrip() {
    let bytes: Vec<u8> = (0u8..=255).collect();
    assert_eq!(from_hex(&to_hex(&bytes)), Some(bytes));
}

#[test]
fn decimal_digits() {
    let mut s = String::from("n=");
    push_decimal(&mut s, 0);
    assert_eq!(s, "n=0");
    let mut s = String::new();
    push_decimal(&mut s, 1234567890);
    assert_eq!(s, "1234567890");
    let mut s = String::new();
    push_decimal(&mut s, u64::MAX);
    assert_eq!(s, "18446744073709551615");
}
