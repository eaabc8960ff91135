use htlc_escrow::text::{decimal_digit, to_hex_lower, to_hex_upper};

#[test]
fn hex_of_no_bytes_is_empty() {
    assert_eq!(to_hex_lower(&[]), "");
    assert_eq!(to_hex_upper(&[]), "");
}

#[test]
fn hex_is_two_characters_per_byte() {
    assert_eq!(to_hex_lower(&[0x00, 0x01, 0x0a, 0x10, 0xab, 0xff]), "00010a10abff");
    assert_eq!(to_hex_upper(&[0x00, 0x01, 0x0a, 0x10, 0xab, 0xff]), "00010A10ABFF");
}

#[test]
fn hex_agrees_with_the_hex_crate() {
    let bytes: Vec<u8> = (0..=255u8).collect();
    assert_eq!(to_hex_lower(&bytes), hex::encode(&bytes));
    assert_eq!(to_hex_upper(&bytes), hex::encode_upper(&bytes));
    assert_eq!(hex::decode(to_hex_lower(&bytes)).unwrap(), bytes);
}

#[test]
fn decimal_digits_are_the_ten_characters() {
    let all: Vec<&str> = (0..10u8).map(decimal_digit).collect();
    assert_eq!(all.concat(), "0123456789");
}
