use elusiv_core::bytes::{
    bytes_to_u32, bytes_to_u64, contains, deserialize_u256, div_ceiling, find, is_zero,
    not_contains, serialize_u256, u64_as_usize_safe, u64_to_u256, unpack_bool, unpack_u256,
    unpack_u64,
};
use elusiv_core::groth16::max;

const SIZE: usize = 256;

fn generate_buffer() -> Vec<u8> {
    let mut buffer = Vec::new();
    for i in 0..SIZE {
        for _ in 0..32 {
            buffer.push(i as u8);
        }
    }
    buffer
}

#[test]
fn test_find() {
    let buffer = generate_buffer();

    // Finds
    for i in 0..SIZE {
        let bytes = [i as u8; 32];

        let index = find(bytes, &buffer).unwrap();
        assert_eq!(index, i);
    }

    // Doesn't find
    for i in 0..32 {
        let mut bytes = [0; 32];
        bytes[i] = 1;

        assert!(matches!(find(bytes, &buffer), None));
    }
}

#[test]
fn test_contains() {
    let buffer = generate_buffer();

    // Contains
    for i in 0..SIZE {
        let bytes = [i as u8; 32];

        assert!(contains(bytes, &buffer));
        assert_eq!(not_contains(bytes, &buffer), false);
    }

    // Doesn't contain
    for i in 0..32 {
        let mut bytes = [0; 32];
        bytes[i] = 1;

        assert!(not_contains(bytes, &buffer));
        assert_eq!(contains(bytes, &buffer), false);
    }
}

#[test]
fn test_unpack_u64() {
    let d: [u8; 8] = [0b00000001, 0, 0, 0, 0, 0, 0, 0b00000000];

    let (v, data) = unpack_u64(&d).unwrap();
    assert_eq!(v, 1);
    assert_eq!(data.len(), 0);
}

#[test]
fn test_max() {
    assert_eq!(max(1, 3), 3);
    assert_eq!(max(3, 1), 3);
}

#[test]
fn test_div_ceiling() {
    assert_eq!(div_ceiling(3, 2), 2);
    assert_eq!(div_ceiling(4, 3), 2);
    assert_eq!(div_ceiling(7, 3), 3);
}

#[test]
fn test_u64_as_usize_safe() {
    assert_eq!(u64_as_usize_safe(u32::MAX as u64), u32::MAX as usize);
}

#[test]
fn test_bytes_to_ints() {
    let data = [1u8, 0, 0, 0, 0, 0, 0, 2, 9, 9];
    assert_eq!(bytes_to_u64(&data), 1 + (2u64 << 56));
    assert_eq!(bytes_to_u32(&data), 1);
}

#[test]
fn test_u256_serialization_round_trip() {
    let mut word = [0u8; 32];
    for i in 0..32 {
        word[i] = (i * 7 + 3) as u8;
    }
    let bytes = serialize_u256(word);
    assert_eq!(bytes.len(), 32);
    assert_eq!(deserialize_u256(&bytes), word);
}

#[test]
fn test_u64_to_u256() {
    let word = u64_to_u256(0x0102030405060708);
    assert_eq!(word[0], 0x08);
    assert_eq!(word[7], 0x01);
    for i in 8..32 {
        assert_eq!(word[i], 0);
    }
}

#[test]
fn test_unpack_sequence() {
    let mut data: Vec<u8> = Vec::new();
    data.extend_from_slice(&7u64.to_le_bytes());
    data.push(1);
    let mut word = [3u8; 32];
    word[0] = 9;
    data.extend_from_slice(&word);

    let (v, rest) = unpack_u64(&data).unwrap();
    assert_eq!(v, 7);
    let (b, rest) = unpack_bool(rest).unwrap();
    assert!(b);
    let (w, rest) = unpack_u256(rest).unwrap();
    assert_eq!(w, word);
    assert!(rest.is_empty());

    assert!(unpack_u64(&[1, 2, 3]).is_err());
    assert!(unpack_u256(&[0; 16]).is_err());
}

#[test]
fn test_is_zero() {
    assert!(is_zero(&[]));
    assert!(is_zero(&[0; 45]));
    let mut data = [0u8; 45];
    data[44] = 1;
    assert!(!is_zero(&data));
}
