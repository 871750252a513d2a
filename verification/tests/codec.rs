use reward_pool::address::Address;
use reward_pool::codec::{push_i64, push_u64, read_i64, read_u64, write_prefix};

#[test]
fn read_u64_is_little_endian() {
    let bytes = [1u8, 2, 3, 4, 5, 6, 7, 8];
    assert_eq!(read_u64(&bytes, 0), 0x0807_0605_0403_0201);
    assert_eq!(read_u64(&bytes, 0), u64::from_le_bytes(bytes));
}

#[test]
fn read_u64_at_offset() {
    let bytes = [9u8, 9, 232, 3, 0, 0, 0, 0, 0, 0, 9];
    assert_eq!(read_u64(&bytes, 2), 1_000);
}

#[test]
fn read_u64_extremes() {
    assert_eq!(read_u64(&[0u8; 8], 0), 0);
    assert_eq!(read_u64(&[255u8; 8], 0), u64::MAX);
}

#[test]
fn push_u64_appends_eight_bytes() {
    let mut out = vec![7u8];
    push_u64(&mut out, 10_000_000_000);
    assert_eq!(out, vec![7u8, 0, 228, 11, 84, 2, 0, 0, 0]);
    let mut std_bytes = vec![7u8];
    std_bytes.extend_from_slice(&10_000_000_000u64.to_le_bytes());
    assert_eq!(out, std_bytes);
}

#[test]
fn push_then_read_u64() {
    for value in [0u64, 1, 255, 256, 86_400, u64::MAX - 1, u64::MAX, 0x0123_4567_89ab_cdef] {
        let mut out = Vec::new();
        push_u64(&mut out, value);
        assert_eq!(out.len(), 8);
        assert_eq!(read_u64(&out, 0), value);
    }
}

#[test]
fn read_i64_is_twos_complement() {
    assert_eq!(read_i64(&[255u8; 8], 0), -1);
    assert_eq!(read_i64(&[0, 0, 0, 0, 0, 0, 0, 128], 0), i64::MIN);
    assert_eq!(read_i64(&[255, 255, 255, 255, 255, 255, 255, 127], 0), i64::MAX);
    assert_eq!(read_i64(&[100, 0, 0, 0, 0, 0, 0, 0], 0), 100);
}

#[test]
fn push_i64_matches_std() {
    for value in [0i64, 1, -1, 100, -100, 86_400, i64::MIN, i64::MAX, i64::MIN + 1] {
        let mut out = Vec::new();
        push_i64(&mut out, value);
        assert_eq!(out, value.to_le_bytes().to_vec());
        assert_eq!(read_i64(&out, 0), value);
    }
}

#[test]
fn write_prefix_keeps_the_rest() {
    let mut dst = [9u8; 6];
    write_prefix(&mut dst, &vec![1, 2, 3]);
    assert_eq!(dst, [1, 2, 3, 9, 9, 9]);
    write_prefix(&mut dst, &Vec::new());
    assert_eq!(dst, [1, 2, 3, 9, 9, 9]);
}

#[test]
fn address_reads_and_writes_its_bytes() {
    let mut raw = [0u8; 40];
    for (i, byte) in raw.iter_mut().enumerate() {
        *byte = i as u8;
    }
    let address = Address::read_from(&raw, 3);
    let mut expected = [0u8; 32];
    expected.copy_from_slice(&raw[3..35]);
    assert_eq!(address.to_bytes(), expected);
    assert_eq!(address, Address::new_from_array(expected));

    let mut out = vec![200u8];
    address.push_to(&mut out);
    assert_eq!(out.len(), 33);
    assert_eq!(&out[1..], &expected[..]);
}

#[test]
fn address_equality_is_by_bytes() {
    let a = Address::new_from_array([1u8; 32]);
    let b = Address::new_from_array([1u8; 32]);
    let mut other = [1u8; 32];
    other[31] = 2;
    let c = Address::new_from_array(other);
    assert!(a == b);
    assert!(a != c);
    assert_eq!(Address::default(), Address::new_from_array([0u8; 32]));
}
