use token_fundraiser::asm_ops::{
    branchless_max, copy32, keys_equal, keys_equal_asm, read_clock_timestamp, read_i64_at,
    read_key, read_mint_decimals, read_token_amount, read_u64_at, sub_unchecked, validate_ata,
    write_u64_at,
};

fn key(fill: u8) -> Vec<u8> {
    (0..32u8).map(|i| fill.wrapping_add(i)).collect()
}

#[test]
fn keys_equal_detects_equal_and_different_keys() {
    let mut a = vec![0u8; 4];
    a.extend(key(10));
    let b = key(10);
    assert!(keys_equal(&a, 4, &b, 0));
    let mut c = key(10);
    c[31] ^= 1;
    assert!(!keys_equal(&a, 4, &c, 0));
    let mut d = key(10);
    d[0] ^= 0x80;
    assert!(!keys_equal(&a, 4, &d, 0));
}

#[test]
fn keys_equal_asm_agrees_with_keys_equal() {
    let a = key(1);
    for pos in 0..32 {
        let mut b = key(1);
        b[pos] = b[pos].wrapping_add(7);
        assert!(!keys_equal_asm(&a, 0, &b, 0));
        assert_eq!(keys_equal_asm(&a, 0, &b, 0), keys_equal(&a, 0, &b, 0));
    }
    assert!(keys_equal_asm(&a, 0, &key(1), 0));
}

#[test]
fn copy32_copies_key_and_keeps_rest() {
    let src = key(200);
    let mut dst = vec![9u8; 40];
    copy32(&mut dst, 4, &src, 0);
    assert_eq!(&dst[4..36], &src[..]);
    assert_eq!(&dst[0..4], &[9, 9, 9, 9]);
    assert_eq!(&dst[36..40], &[9, 9, 9, 9]);
    assert!(keys_equal(&dst, 4, &src, 0));
}

#[test]
fn read_key_copies_bytes() {
    let mut buf = vec![0u8; 3];
    buf.extend(key(77));
    let k = read_key(&buf, 3);
    assert_eq!(&k[..], &key(77)[..]);
}

#[test]
fn u64_write_then_read_gives_value() {
    let mut buf = vec![0xaau8; 24];
    write_u64_at::<8>(&mut buf, 4, 0x0102_0304_0506_0708);
    assert_eq!(&buf[12..20], &[8, 7, 6, 5, 4, 3, 2, 1]);
    assert_eq!(read_u64_at::<8>(&buf, 4), 0x0102_0304_0506_0708);
    assert_eq!(read_u64_at::<12>(&buf, 0), 0x0102_0304_0506_0708);
    assert_eq!(&buf[0..12], &[0xaa; 12]);
    assert_eq!(&buf[20..24], &[0xaa; 4]);
}

#[test]
fn i64_read_is_twos_complement() {
    let buf = (-2i64).to_le_bytes().to_vec();
    assert_eq!(read_i64_at::<0>(&buf, 0), -2);
    let buf = 1_700_000_000i64.to_le_bytes().to_vec();
    assert_eq!(read_i64_at::<0>(&buf, 0), 1_700_000_000);
}

#[test]
fn sub_unchecked_wraps() {
    assert_eq!(sub_unchecked(10, 3), 7);
    assert_eq!(sub_unchecked(3, 10), u64::MAX - 6);
    assert_eq!(sub_unchecked(0, 1), u64::MAX);
}

#[test]
fn branchless_max_picks_larger() {
    assert_eq!(branchless_max(3, 9), 9);
    assert_eq!(branchless_max(9, 3), 9);
    assert_eq!(branchless_max(5, 5), 5);
    assert_eq!(branchless_max(0, u64::MAX), u64::MAX);
}

#[test]
fn validate_ata_checks_mint_and_owner() {
    let mut ata = key(1);
    ata.extend(key(2));
    let mint = key(1);
    let owner = key(2);
    assert!(validate_ata(&ata, 0, &mint, 0, &owner, 0));
    assert!(!validate_ata(&ata, 0, &owner, 0, &owner, 0));
    assert!(!validate_ata(&ata, 0, &mint, 0, &mint, 0));
}

#[test]
fn token_amount_clock_and_decimals_offsets() {
    let mut buf = vec![0u8; 100];
    buf[2 + 64..2 + 72].copy_from_slice(&123_456u64.to_le_bytes());
    buf[2 + 32..2 + 40].copy_from_slice(&(-5i64).to_le_bytes());
    buf[2 + 44] = 6;
    assert_eq!(read_token_amount(&buf, 2), 123_456);
    assert_eq!(read_clock_timestamp(&buf, 2), -5);
    assert_eq!(read_mint_decimals(&buf, 2), 6);
}
