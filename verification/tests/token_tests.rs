use backend_supervisor::decimal::{u16_to_string, u64_to_string};
use backend_supervisor::token::{generate_boot_token, hex_encode};

#[test]
fn hex_encoding_is_two_lowercase_digits_per_byte() {
    assert_eq!(hex_encode(&vec![]), "");
    assert_eq!(hex_encode(&vec![0x00, 0xff, 0x1a]), "00ff1a");
    assert_eq!(hex_encode(&vec![0xde, 0xad, 0xbe, 0xef]), "deadbeef");
}

#[test]
fn boot_tokens_are_64_hex_characters() {
    let token = generate_boot_token().expect("entropy source");
    assert_eq!(token.len(), 64);
    assert!(token.chars().all(|c| c.is_ascii_hexdigit() && !c.is_ascii_uppercase()));
}

#[test]
fn boot_tokens_are_fresh_per_launch() {
    let a = generate_boot_token().expect("entropy source");
    let b = generate_boot_token().expect("entropy source");
    assert_ne!(a, b);
}

#[test]
fn decimal_rendering() {
    assert_eq!(u64_to_string(0), "0");
    assert_eq!(u64_to_string(7), "7");
    assert_eq!(u64_to_string(1700000000), "1700000000");
    assert_eq!(u64_to_string(u64::MAX), "18446744073709551615");
    assert_eq!(u16_to_string(65535), "65535");
    assert_eq!(u16_to_string(8000), "8000");
}
