//! External identifier strings: twenty-four hex digits, either case
//! on the way in, canonical lowercase on the way out.

use ponzu_back::object_id::{oid_to_hex, parse_oid};

#[test]
fn parses_a_lowercase_identifier() {
    assert_eq!(
        parse_oid("0123456789abcdef01234567"),
        Some(0x0123456789abcdef01234567u128)
    );
}

#[test]
fn parses_either_letter_case_to_the_same_value() {
    let lower = parse_oid("00ffee00ffee00ffee00ffee");
    let upper = parse_oid("00FFEE00FFEE00FFEE00FFEE");
    assert!(lower.is_some());
    assert_eq!(lower, upper);
}

#[test]
fn rejects_wrong_lengths() {
    assert_eq!(parse_oid(""), None);
    assert_eq!(parse_oid("0123456789abcdef0123456"), None);
    assert_eq!(parse_oid("0123456789abcdef012345678"), None);
}

#[test]
fn rejects_non_hex_characters() {
    assert_eq!(parse_oid("0123456789abcdef0123456g"), None);
    assert_eq!(parse_oid("xyzxyzxyzxyzxyzxyzxyzxyz"), None);
    assert_eq!(parse_oid("0123456789abcdef0123456 "), None);
}

#[test]
fn encoding_is_canonical_lowercase() {
    assert_eq!(oid_to_hex(0), "000000000000000000000000");
    assert_eq!(oid_to_hex(0xabcdef), "000000000000000000abcdef");
}

#[test]
fn round_trips_through_the_canonical_form() {
    for v in [0u128, 1, 15, 16, 255, 0xdeadbeef, (1u128 << 96) - 1] {
        let s = oid_to_hex(v);
        assert_eq!(s.len(), 24);
        assert_eq!(parse_oid(&s), Some(v));
    }
}
