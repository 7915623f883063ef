//! Little-endian integers and keys in byte strings.

use percolator_stake::bytes::{
    keys_equal, push_key, push_u128_le, push_u16_le, push_u64_le, read_key, read_u128_le,
    read_u16_le, read_u64_le,
};

#[test]
fn test_read_matches_std() {
    let data: Vec<u8> = (1u8..=40).collect();
    for at in 0..=(data.len() - 16) {
        assert_eq!(
            read_u16_le(&data, at),
            u16::from_le_bytes(data[at..at + 2].try_into().unwrap())
        );
        assert_eq!(
            read_u64_le(&data, at),
            u64::from_le_bytes(data[at..at + 8].try_into().unwrap())
        );
        assert_eq!(
            read_u128_le(&data, at),
            u128::from_le_bytes(data[at..at + 16].try_into().unwrap())
        );
    }
    assert_eq!(read_u64_le(&[0xff; 8], 0), u64::MAX);
    assert_eq!(read_u128_le(&[0xff; 16], 0), u128::MAX);
    assert_eq!(read_u16_le(&[0xff; 2], 0), u16::MAX);
    assert_eq!(read_u64_le(&[0x2a, 0, 0, 0, 0, 0, 0, 0], 0), 42);
    assert_eq!(read_u64_le(&[0, 1, 0, 0, 0, 0, 0, 0], 0), 256);
    assert_eq!(read_u16_le(&[0x34, 0x12], 0), 0x1234);
}

#[test]
fn test_push_matches_std() {
    for v in [0u64, 1, 255, 256, 0x0102_0304_0506_0708, u64::MAX - 1, u64::MAX] {
        let mut out = vec![7u8];
        push_u64_le(&mut out, v);
        let mut expected = vec![7u8];
        expected.extend_from_slice(&v.to_le_bytes());
        assert_eq!(out, expected);
        assert_eq!(read_u64_le(&out, 1), v);
    }
    for v in [0u128, 1, u64::MAX as u128, (u64::MAX as u128) + 1, u128::MAX] {
        let mut out = Vec::new();
        push_u128_le(&mut out, v);
        assert_eq!(out, v.to_le_bytes().to_vec());
        assert_eq!(read_u128_le(&out, 0), v);
    }
    for v in [0u16, 1, 255, 256, 0x1234, u16::MAX] {
        let mut out = Vec::new();
        push_u16_le(&mut out, v);
        assert_eq!(out, v.to_le_bytes().to_vec());
        assert_eq!(read_u16_le(&out, 0), v);
    }
}

#[test]
fn test_keys() {
    let data: Vec<u8> = (0u8..64).collect();
    let key = read_key(&data, 5);
    assert_eq!(&key[..], &data[5..37]);
    let mut out = vec![1u8, 2];
    push_key(&mut out, &key);
    assert_eq!(out.len(), 34);
    assert_eq!(&out[2..], &key[..]);

    let same = key;
    assert!(keys_equal(&key, &same));
    let mut other = key;
    other[31] ^= 1;
    assert!(!keys_equal(&key, &other));
    let mut other = key;
    other[0] ^= 0x80;
    assert!(!keys_equal(&key, &other));
    assert!(keys_equal(&[0u8; 32], &[0u8; 32]));
}
