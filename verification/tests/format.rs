use wallet_core::format::{format_address, format_amount};

#[test]
fn amount_btc_1500() {
    let coin = b"BTC".to_vec();
    let s = format_amount(&coin, 1500).unwrap();
    assert_eq!(s, b"BTC 1500".to_vec());
}

#[test]
fn amount_zero_value() {
    let coin = b"X".to_vec();
    let s = format_amount(&coin, 0).unwrap();
    assert_eq!(s, b"X 0".to_vec());
}

#[test]
fn amount_max_value() {
    let coin = b"COIN".to_vec();
    let s = format_amount(&coin, u64::MAX).unwrap();
    assert_eq!(s, b"COIN 18446744073709551615".to_vec());
}

#[test]
fn amount_coin_at_bound() {
    let coin = b"ABCDEFGHIJ".to_vec();
    assert_eq!(coin.len(), 10);
    let s = format_amount(&coin, 7).unwrap();
    assert_eq!(s, b"ABCDEFGHIJ 7".to_vec());
}

#[test]
fn amount_coin_over_bound() {
    let coin = b"ABCDEFGHIJK".to_vec();
    assert_eq!(coin.len(), 11);
    assert!(format_amount(&coin, 1500).is_err());
}

#[test]
fn address_all_zero() {
    let to = vec![0u8; 20];
    let s = format_address(&to);
    assert_eq!(s.len(), 42);
    assert_eq!(s, b"0x0000000000000000000000000000000000000000".to_vec());
}

#[test]
fn address_mixed_bytes() {
    let mut to = vec![0u8; 20];
    to[0] = 0xDE;
    to[1] = 0xAD;
    to[2] = 0xBE;
    to[3] = 0xEF;
    to[19] = 0x0A;
    let s = format_address(&to);
    let expected = format!("0xDEADBEEF{}0A", "00".repeat(15));
    assert_eq!(s, expected.into_bytes());
}

#[test]
fn address_shape_is_fixed() {
    let to: Vec<u8> = (0u8..20u8).collect();
    let s = format_address(&to);
    assert_eq!(s.len(), 42);
    assert_eq!(&s[..2], b"0x");
    for c in &s[2..] {
        assert!(c.is_ascii_digit() || (b'A'..=b'F').contains(c));
    }
}

#[test]
fn address_round_trip() {
    let to: Vec<u8> = (100u8..120u8).collect();
    let s = format_address(&to);
    let hex_part = std::str::from_utf8(&s[2..]).unwrap();
    let back = hex::decode(hex_part).unwrap();
    assert_eq!(back, to);
}
