use xdp_verifier_err::access::{ptr_at, read_u16_be, read_u64_le, read_u8};

#[test]
fn ptr_at_whole_range_is_ok() {
    let buf = [0u8; 16];
    assert_eq!(ptr_at(&buf, 0, 16), Ok(0));
}

#[test]
fn ptr_at_interior_span_is_ok() {
    let buf = [0u8; 16];
    assert_eq!(ptr_at(&buf, 4, 8), Ok(4));
}

#[test]
fn ptr_at_one_past_end_fails() {
    let buf = [0u8; 16];
    assert_eq!(ptr_at(&buf, 9, 8), Err(()));
}

#[test]
fn ptr_at_empty_range_zero_size_is_ok() {
    let buf: [u8; 0] = [];
    assert_eq!(ptr_at(&buf, 0, 0), Ok(0));
}

#[test]
fn ptr_at_huge_offset_fails_without_wrapping() {
    let buf = [0u8; 16];
    assert_eq!(ptr_at(&buf, usize::MAX, 8), Err(()));
    assert_eq!(ptr_at(&buf, 8, usize::MAX), Err(()));
}

#[test]
fn read_u8_returns_the_byte() {
    let buf = [0xAAu8, 0xBB, 0xCC];
    assert_eq!(read_u8(&buf, 2), 0xCC);
}

#[test]
fn read_u16_be_is_big_endian() {
    let buf = [0x08u8, 0x00, 0x86, 0xDD];
    assert_eq!(read_u16_be(&buf, 0), 0x0800);
    assert_eq!(read_u16_be(&buf, 2), 0x86DD);
}

#[test]
fn read_u64_le_is_little_endian() {
    let buf = [0x01u8, 0x02, 0x03, 0x04, 0x05, 0x06, 0x07, 0x08, 0x09];
    assert_eq!(read_u64_le(&buf, 0), 0x0807060504030201);
    assert_eq!(read_u64_le(&buf, 1), 0x0908070605040302);
    assert_eq!(
        read_u64_le(&buf, 0),
        u64::from_le_bytes(buf[0..8].try_into().unwrap())
    );
}
