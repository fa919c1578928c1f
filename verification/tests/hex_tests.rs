//! Tests of `0x`-prefixed hex parsing.

use ssri_executor::{parse_hex, parse_tx_hash, Error};

#[test]
fn parse_hex_exact_bytes() {
    let h = parse_hex("0x0aff").unwrap();
    assert_eq!(h.hex, vec![0x0a, 0xff]);
}

#[test]
fn parse_hex_mixed_case_digits() {
    let h = parse_hex("0xDeadBEEF").unwrap();
    assert_eq!(h.hex, vec![0xde, 0xad, 0xbe, 0xef]);
}

#[test]
fn parse_hex_empty_digits() {
    let h = parse_hex("0x").unwrap();
    assert_eq!(h.hex, Vec::<u8>::new());
}

#[test]
fn parse_hex_missing_prefix_is_encoding_error() {
    match parse_hex("0aff") {
        Err(Error::Encoding(_)) => {}
        other => panic!("expected an Encoding error, got {:?}", other),
    }
}

#[test]
fn parse_hex_odd_length_is_encoding_error() {
    match parse_hex("0xabc") {
        Err(Error::Encoding(_)) => {}
        other => panic!("expected an Encoding error, got {:?}", other),
    }
}

#[test]
fn parse_hex_non_digit_is_encoding_error() {
    match parse_hex("0xg1") {
        Err(Error::Encoding(_)) => {}
        other => panic!("expected an Encoding error, got {:?}", other),
    }
}

#[test]
fn parse_hex_empty_string_is_encoding_error() {
    match parse_hex("") {
        Err(Error::Encoding(_)) => {}
        other => panic!("expected an Encoding error, got {:?}", other),
    }
}

#[test]
fn parse_tx_hash_accepts_32_bytes() {
    let text = format!("0x{}", "11".repeat(32));
    let h = parse_tx_hash(&text).unwrap();
    assert_eq!(h.hex, vec![0x11u8; 32]);
}

#[test]
fn parse_tx_hash_rejects_short_hash() {
    match parse_tx_hash("0x1122") {
        Err(Error::Encoding(_)) => {}
        other => panic!("expected an Encoding error, got {:?}", other),
    }
}

#[test]
fn parse_tx_hash_rejects_long_hash() {
    let text = format!("0x{}", "11".repeat(33));
    match parse_tx_hash(&text) {
        Err(Error::Encoding(_)) => {}
        other => panic!("expected an Encoding error, got {:?}", other),
    }
}
