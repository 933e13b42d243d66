use wallet_core::tx::{decode, DecodeError};

/// Builds a sign payload: coin, zero separator, big-endian value, 20-byte
/// address, memo.
fn payload(coin: &[u8], value: u64, to: &[u8; 20], memo: &[u8]) -> Vec<u8> {
    let mut p = Vec::new();
    p.extend_from_slice(coin);
    p.push(0);
    p.extend_from_slice(&value.to_be_bytes());
    p.extend_from_slice(to);
    p.extend_from_slice(memo);
    p
}

#[test]
fn decode_empty_is_malformed() {
    let r = decode(&Vec::new());
    assert!(matches!(r, Err(DecodeError::Malformed)));
}

#[test]
fn decode_short_is_malformed() {
    for n in 0..29usize {
        let bytes = vec![0u8; n];
        assert!(matches!(decode(&bytes), Err(DecodeError::Malformed)));
        let bytes = vec![7u8; n];
        assert!(matches!(decode(&bytes), Err(DecodeError::Malformed)));
    }
}

#[test]
fn decode_no_separator_is_malformed() {
    let bytes = vec![1u8; 64];
    assert!(matches!(decode(&bytes), Err(DecodeError::Malformed)));
}

#[test]
fn decode_truncated_after_separator_is_malformed() {
    // Separator at index 3 needs 28 more bytes; only 20 follow.
    let mut bytes = b"BTC".to_vec();
    bytes.push(0);
    bytes.extend_from_slice(&[9u8; 20]);
    assert!(matches!(decode(&bytes), Err(DecodeError::Malformed)));
}

#[test]
fn decode_minimal_payload() {
    let p = payload(b"", 0, &[0u8; 20], b"");
    assert_eq!(p.len(), 29);
    let tx = decode(&p).unwrap();
    assert_eq!(tx.coin, Vec::<u8>::new());
    assert_eq!(tx.value, 0);
    assert_eq!(tx.to, vec![0u8; 20]);
    assert_eq!(tx.memo, Vec::<u8>::new());
}

#[test]
fn decode_full_payload() {
    let to = [3u8; 20];
    let p = payload(b"BTC", 1500, &to, b"test");
    let tx = decode(&p).unwrap();
    assert_eq!(tx.coin, b"BTC".to_vec());
    assert_eq!(tx.value, 1500);
    assert_eq!(tx.to, to.to_vec());
    assert_eq!(tx.memo, b"test".to_vec());
}

#[test]
fn decode_value_big_endian() {
    let p = payload(b"Z", 0x0102030405060708, &[0u8; 20], b"");
    let tx = decode(&p).unwrap();
    assert_eq!(tx.value, 0x0102030405060708);
    let p = payload(b"Z", u64::MAX, &[0u8; 20], b"m");
    let tx = decode(&p).unwrap();
    assert_eq!(tx.value, u64::MAX);
}

#[test]
fn decode_coin_at_bound() {
    let p = payload(b"ABCDEFGHIJ", 5, &[1u8; 20], b"memo");
    let tx = decode(&p).unwrap();
    assert_eq!(tx.coin, b"ABCDEFGHIJ".to_vec());
}

#[test]
fn decode_coin_over_bound_is_too_large() {
    let p = payload(b"ABCDEFGHIJK", 5, &[1u8; 20], b"memo");
    assert!(matches!(decode(&p), Err(DecodeError::TooLarge)));
}

#[test]
fn decode_memo_takes_all_remaining_bytes() {
    let memo = b"a longer memo, with a \x01 byte and trailing spaces   ";
    let p = payload(b"ETH", 42, &[0xABu8; 20], memo);
    let tx = decode(&p).unwrap();
    assert_eq!(tx.memo, memo.to_vec());
}
