use chain_spec::hex::{from_hex, to_hex};

fn text(s: &str) -> Vec<char> {
    s.chars().collect()
}

#[test]
fn hex_of_bytes_is_prefixed_lower_case() {
    assert_eq!(to_hex(&[0x12, 0x34]), text("0x1234"));
    assert_eq!(to_hex(&[0xab, 0xcd, 0x00, 0xff]), text("0xabcd00ff"));
    assert_eq!(to_hex(&[]), text("0x"));
}

#[test]
fn hex_text_reads_back() {
    assert_eq!(from_hex(&text("0x1234")), Some(vec![0x12, 0x34]));
    assert_eq!(from_hex(&text("0xABcd")), Some(vec![0xab, 0xcd]));
    assert_eq!(from_hex(&text("abcd")), Some(vec![0xab, 0xcd]));
    assert_eq!(from_hex(&text("0x")), Some(vec![]));
    assert_eq!(from_hex(&text("")), Some(vec![]));
}

#[test]
fn odd_hex_text_reads_with_leading_zero() {
    assert_eq!(from_hex(&text("0x123")), Some(vec![0x01, 0x23]));
    assert_eq!(from_hex(&text("f")), Some(vec![0x0f]));
}

#[test]
fn invalid_hex_text_is_refused() {
    assert_eq!(from_hex(&text("0x12g4")), None);
    assert_eq!(from_hex(&text("0X12")), None);
    assert_eq!(from_hex(&text("xx")), None);
}

#[test]
fn hex_round_trip_on_all_byte_values() {
    let bytes: Vec<u8> = (0..=255u8).collect();
    assert_eq!(from_hex(&to_hex(&bytes)), Some(bytes));
}
