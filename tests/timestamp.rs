use ping_adjuster::{
    modify_icmp_payload, AdjustError, BannerTimevalAdder, ConstantTimevalAdder, TimevalAdder,
};

const A_ROWS: [i64; 7] = [
    777700077777,
    777007007777,
    770077700777,
    700777770077,
    700000000077,
    700777770077,
    700777770077,
];

fn wide_le(sec: i64, usec: i64, tail: &[u8]) -> Vec<u8> {
    let mut b = sec.to_le_bytes().to_vec();
    b.extend(usec.to_le_bytes());
    b.extend(tail);
    b
}

#[test]
fn wide_little_endian_happy_path() {
    let mut b = vec![
        0x11, 0x27, 0, 0, 0, 0, 0, 0, 0x40, 0xE2, 0x01, 0, 0, 0, 0, 0, 0xAA, 0xBB, 0xCC, 0xDD,
    ];
    let before = b.clone();
    let mut f = ConstantTimevalAdder::new(100);
    assert_eq!(modify_icmp_payload(&mut b, 1, &mut f), Ok(()));
    assert_eq!(i64::from_le_bytes(b[0..8].try_into().unwrap()), 9901);
    assert_eq!(b[8..], before[8..]);
}

#[test]
fn exactly_sixteen_bytes_is_too_short_for_wide() {
    // 16 bytes: the wide reading needs more; the narrow one reads usec = 0.
    let mut b = vec![0x11, 0x27, 0, 0, 0, 0, 0, 0, 0x40, 0xE2, 0x01, 0, 0, 0, 0, 0];
    let mut f = ConstantTimevalAdder::new(100);
    assert_eq!(modify_icmp_payload(&mut b, 1, &mut f), Ok(()));
    assert_eq!(i32::from_le_bytes(b[0..4].try_into().unwrap()), 10001 - 1337);
    assert_eq!(b[4..], [0, 0, 0, 0, 0x40, 0xE2, 0x01, 0, 0, 0, 0, 0]);
}

#[test]
fn narrow_little_endian_fallback() {
    let mut b = vec![0x11, 0x27, 0, 0, 0x40, 0xE2, 0x01, 0, 0xFF, 0xFF];
    let mut f = ConstantTimevalAdder::new(100);
    assert_eq!(modify_icmp_payload(&mut b, 1, &mut f), Ok(()));
    assert_eq!(i32::from_le_bytes(b[0..4].try_into().unwrap()), 8664);
    assert_eq!(b[4..], [0x40, 0xE2, 0x01, 0, 0xFF, 0xFF]);
}

#[test]
fn narrow_big_endian_fallback() {
    let mut b = vec![0, 0, 0x27, 0x11, 0, 0x01, 0xE2, 0x40, 0xFF, 0xFF];
    let mut f = ConstantTimevalAdder::new(100);
    assert_eq!(modify_icmp_payload(&mut b, 1, &mut f), Ok(()));
    assert_eq!(b, vec![0, 0, 0x21, 0xD8, 0, 0x01, 0xE2, 0x40, 0xFF, 0xFF]);
}

#[test]
fn no_timestamp_leaves_buffer() {
    let mut b = vec![0xFF; 20];
    let mut f = ConstantTimevalAdder::new(100);
    assert_eq!(modify_icmp_payload(&mut b, 1, &mut f), Err(()));
    assert_eq!(b, vec![0xFF; 20]);
}

#[test]
fn short_buffer_has_no_timestamp() {
    let mut b = vec![0u8; 8];
    let mut f = ConstantTimevalAdder::new(100);
    assert_eq!(modify_icmp_payload(&mut b, 1, &mut f), Err(()));
    assert_eq!(b, vec![0u8; 8]);
    let mut e: Vec<u8> = Vec::new();
    assert_eq!(modify_icmp_payload(&mut e, 1, &mut f), Err(()));
}

#[test]
fn microseconds_bounds() {
    let mut f = ConstantTimevalAdder::new(5);
    let mut b = wide_le(50, 999_999, &[1]);
    assert_eq!(modify_icmp_payload(&mut b, 1, &mut f), Ok(()));
    assert_eq!(b, wide_le(45, 999_999, &[1]));
    let mut b = wide_le(50, 0, &[1]);
    assert_eq!(modify_icmp_payload(&mut b, 1, &mut f), Ok(()));
    assert_eq!(b, wide_le(45, 0, &[1]));
    // One million microseconds is not a timeval; with bytes 4..8 set to
    // 0xFF neither narrow reading fits either.
    let mut b = wide_le(50, 1_000_000, &[1]);
    b[4..8].copy_from_slice(&[0xFF; 4]);
    let kept = b.clone();
    assert_eq!(modify_icmp_payload(&mut b, 1, &mut f), Err(()));
    assert_eq!(b, kept);
    // A negative wide usec is refused.
    let mut b = wide_le(50, -1, &[1]);
    b[4..8].copy_from_slice(&[0xFF; 4]);
    let kept = b.clone();
    assert_eq!(modify_icmp_payload(&mut b, 1, &mut f), Err(()));
    assert_eq!(b, kept);
}

#[test]
fn wide_seconds_wrap() {
    let mut f = ConstantTimevalAdder::new(1);
    let mut b = wide_le(i64::MIN, 7, &[9, 9]);
    assert_eq!(modify_icmp_payload(&mut b, 3, &mut f), Ok(()));
    assert_eq!(b, wide_le(i64::MAX, 7, &[9, 9]));
    let mut f = ConstantTimevalAdder::new(-10);
    let mut b = wide_le(i64::MAX - 5, 7, &[0]);
    assert_eq!(modify_icmp_payload(&mut b, 3, &mut f), Ok(()));
    assert_eq!(b, wide_le(i64::MIN + 4, 7, &[0]));
}

#[test]
fn narrow_seconds_wrap() {
    let mut f = ConstantTimevalAdder::new(100);
    let mut b = i32::MIN.to_le_bytes().to_vec();
    b.extend(12i32.to_le_bytes());
    b.push(0xFF);
    assert_eq!(modify_icmp_payload(&mut b, 1, &mut f), Ok(()));
    assert_eq!(i32::from_le_bytes(b[0..4].try_into().unwrap()), i32::MIN.wrapping_sub(1337));
    assert_eq!(b[4..], [12, 0, 0, 0, 0xFF]);
}

#[test]
fn narrow_ignores_the_adder() {
    let mut f = BannerTimevalAdder::new("A").unwrap();
    let mut b = vec![0x11, 0x27, 0, 0, 0x40, 0xE2, 0x01, 0, 0xFF, 0xFF];
    assert_eq!(modify_icmp_payload(&mut b, 2, &mut f), Ok(()));
    assert_eq!(i32::from_le_bytes(b[0..4].try_into().unwrap()), 8664);
}

#[test]
fn wide_uses_banner_delta() {
    let mut f = BannerTimevalAdder::new("A").unwrap();
    let mut b = wide_le(800_000_000_000, 5, &[0]);
    assert_eq!(modify_icmp_payload(&mut b, 2, &mut f), Ok(()));
    assert_eq!(b, wide_le(800_000_000_000 - A_ROWS[1], 5, &[0]));
}

#[test]
fn constant_adder() {
    let mut f = ConstantTimevalAdder::new(133_713_371_337);
    assert_eq!(f.get_increment(0), 133_713_371_337);
    assert_eq!(f.get_increment(1), 133_713_371_337);
    assert_eq!(f.get_increment(65535), 133_713_371_337);
    let mut g = ConstantTimevalAdder::new(i64::MIN);
    assert_eq!(g.get_increment(7), i64::MIN);
}

#[test]
fn banner_rendering() {
    let mut f = BannerTimevalAdder::new("A").unwrap();
    for (i, row) in A_ROWS.iter().enumerate() {
        assert_eq!(f.get_increment(i as u16 + 1), *row);
    }
    assert_eq!(f.get_increment(8), 0);
    assert_eq!(f.get_increment(9), 0);
    assert_eq!(f.get_increment(10), A_ROWS[0]);
    assert_eq!(f.len(), 9);
}

#[test]
fn banner_sequence_zero_is_first_row() {
    let mut f = BannerTimevalAdder::new("A").unwrap();
    assert_eq!(f.get_increment(0), A_ROWS[0]);
}

#[test]
fn banner_cycles() {
    let mut f = BannerTimevalAdder::new("Hi there").unwrap();
    let n = f.len() as u16;
    for k in 1..200u16 {
        assert_eq!(f.get_increment(k), f.get_increment(k + n));
    }
}

#[test]
fn banner_case_fold() {
    let a = BannerTimevalAdder::new("a").unwrap();
    let b = BannerTimevalAdder::new("A").unwrap();
    assert_eq!(a.delta_list(), b.delta_list());
    let mut expected = A_ROWS.to_vec();
    expected.extend([0, 0]);
    assert_eq!(a.delta_list(), &expected[..]);
}

#[test]
fn banner_unknown_letter() {
    let e = BannerTimevalAdder::new("ab\ncd").err().unwrap();
    assert_eq!(e.letter(), '\n');
}

#[test]
fn adjust_errors_are_distinct() {
    assert_ne!(AdjustError::TooShort, AdjustError::NotATimeval);
}
