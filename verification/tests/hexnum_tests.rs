//! Lenient and strict hex-field parsing, and canonical re-encoding.

use tx_normalizer::hexnum::{
    encode_hex_u128, encode_hex_u64, parse_hex_str_u128, parse_hex_str_u64,
    parse_strict_quantity_u64, parse_u64_opt_hex,
};

#[test]
fn lenient_parses_prefixed_hex() {
    assert_eq!(parse_hex_str_u64("0x1a"), Some(26));
    assert_eq!(parse_hex_str_u64("0x0"), Some(0));
    assert_eq!(parse_hex_str_u64("0xDeadBeef"), Some(0xdead_beef));
}

#[test]
fn lenient_parses_bare_hex() {
    assert_eq!(parse_hex_str_u64("1A"), Some(26));
    assert_eq!(parse_hex_str_u64("ff"), Some(255));
}

#[test]
fn lenient_trims_whitespace() {
    assert_eq!(parse_hex_str_u64(" 0xff \n"), Some(255));
    assert_eq!(parse_hex_str_u64("\t10 "), Some(16));
}

#[test]
fn lenient_empty_is_none() {
    assert_eq!(parse_hex_str_u64(""), None);
    assert_eq!(parse_hex_str_u64("   "), None);
    assert_eq!(parse_hex_str_u64("0x"), None);
}

#[test]
fn lenient_malformed_is_none() {
    assert_eq!(parse_hex_str_u64("0xzz"), None);
    assert_eq!(parse_hex_str_u64("12 34"), None);
    assert_eq!(parse_hex_str_u64("-5"), None);
    assert_eq!(parse_hex_str_u64("+1f"), None);
}

#[test]
fn lenient_overflow_is_none() {
    assert_eq!(parse_hex_str_u64("0xffffffffffffffff"), Some(u64::MAX));
    assert_eq!(parse_hex_str_u64("0x10000000000000000"), None);
    assert_eq!(
        parse_hex_str_u128("0x10000000000000000"),
        Some(1u128 << 64)
    );
    assert_eq!(
        parse_hex_str_u128("0xffffffffffffffffffffffffffffffff"),
        Some(u128::MAX)
    );
    assert_eq!(
        parse_hex_str_u128("0x100000000000000000000000000000000"),
        None
    );
}

#[test]
fn absent_field_differs_from_zero() {
    assert_eq!(parse_u64_opt_hex(&None), None);
    assert_eq!(parse_u64_opt_hex(&Some("0x0".to_string())), Some(0));
}

#[test]
fn strict_requires_prefix_and_no_padding() {
    assert_eq!(parse_strict_quantity_u64("0x1a"), Some(26));
    assert_eq!(parse_strict_quantity_u64("1a"), None);
    assert_eq!(parse_strict_quantity_u64(" 0x1a"), None);
    assert_eq!(parse_strict_quantity_u64("0x1a "), None);
    assert_eq!(parse_strict_quantity_u64("0x"), None);
    assert_eq!(parse_strict_quantity_u64(""), None);
}

#[test]
fn encoding_is_prefixed_lowercase() {
    assert_eq!(encode_hex_u64(0), "0x0");
    assert_eq!(encode_hex_u64(26), "0x1a");
    assert_eq!(encode_hex_u64(0xdead_beef), "0xdeadbeef");
    assert_eq!(encode_hex_u64(u64::MAX), "0xffffffffffffffff");
    assert_eq!(encode_hex_u128(1u128 << 64), "0x10000000000000000");
}

#[test]
fn encoding_then_parsing_round_trips() {
    for n in [0u64, 1, 15, 16, 255, 4096, u64::MAX] {
        assert_eq!(parse_hex_str_u64(&encode_hex_u64(n)), Some(n));
        assert_eq!(parse_strict_quantity_u64(&encode_hex_u64(n)), Some(n));
    }
}
