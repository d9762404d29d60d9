use explicit_cast::number::{
    extending_cast, truncating_cast, wrapping_cast, ExtendingCast, TruncatingCast, WrappingCast,
};

#[test]
fn wrapping_reinterprets_bit_patterns() {
    let r: i8 = wrapping_cast(200u8);
    assert_eq!(r, -56i8);
    let r: u8 = wrapping_cast(-1i8);
    assert_eq!(r, 255u8);
    let r: i16 = wrapping_cast(u16::MAX);
    assert_eq!(r, -1i16);
    let r: u32 = wrapping_cast(i32::MIN);
    assert_eq!(r, 0x8000_0000u32);
    let r: i64 = wrapping_cast(u64::MAX);
    assert_eq!(r, -1i64);
    let r: u128 = wrapping_cast(-2i128);
    assert_eq!(r, u128::MAX - 1);
    let r: isize = wrapping_cast(usize::MAX);
    assert_eq!(r, -1isize);
    let r: usize = wrapping_cast(-1isize);
    assert_eq!(r, usize::MAX);
}

#[test]
fn wrapping_twice_is_identity() {
    let vals_u8: [u8; 4] = [0, 1, 127, 200];
    for v in vals_u8 {
        let there: i8 = wrapping_cast(v);
        let back: u8 = wrapping_cast(there);
        assert_eq!(back, v);
    }
    let vals_i16: [i16; 4] = [i16::MIN, -1, 0, i16::MAX];
    for v in vals_i16 {
        let there: u16 = wrapping_cast(v);
        let back: i16 = wrapping_cast(there);
        assert_eq!(back, v);
    }
    let vals_u128: [u128; 3] = [0, u128::MAX, 1 << 127];
    for v in vals_u128 {
        let there: i128 = wrapping_cast(v);
        let back: u128 = wrapping_cast(there);
        assert_eq!(back, v);
    }
    let vals_usize: [usize; 3] = [0, usize::MAX, usize::MAX / 2 + 1];
    for v in vals_usize {
        let there: isize = wrapping_cast(v);
        let back: usize = wrapping_cast(there);
        assert_eq!(back, v);
    }
}

#[test]
fn extending_preserves_values() {
    let r: u32 = extending_cast(65535u16);
    assert_eq!(r, 65535u32);
    let r: u128 = extending_cast(u64::MAX);
    assert_eq!(r, u64::MAX as u128);
    let r: i64 = extending_cast(i8::MIN);
    assert_eq!(r, -128i64);
    let r: i128 = extending_cast(i64::MAX);
    assert_eq!(r, i64::MAX as i128);
    let r: i32 = extending_cast(-1i16);
    assert_eq!(r, -1i32);
}

#[test]
fn extending_then_truncating_recovers_the_value() {
    let wide: u32 = extending_cast(123u8);
    let back: u8 = truncating_cast(wide);
    assert_eq!(back, 123u8);
    let wide: i64 = extending_cast(-5i8);
    let back: i8 = truncating_cast(wide);
    assert_eq!(back, -5i8);
    let wide: u128 = extending_cast(u16::MAX);
    let back: u16 = truncating_cast(wide);
    assert_eq!(back, u16::MAX);
    let wide: i128 = extending_cast(i32::MIN);
    let back: i32 = truncating_cast(wide);
    assert_eq!(back, i32::MIN);
}

#[test]
fn truncating_keeps_the_low_bits() {
    let r: u16 = truncating_cast(0x1_2345u32);
    assert_eq!(r, 0x2345u16);
    let r: u8 = truncating_cast(300u16);
    assert_eq!(r, (300u16 % 256) as u8);
    let r: i8 = truncating_cast(-300i16);
    assert_eq!(r, -44i8);
    let r: u32 = truncating_cast(u64::MAX);
    assert_eq!(r, u32::MAX);
    let r: i16 = truncating_cast(0x7_FFFFi32);
    assert_eq!(r, -1i16);
    let r: u64 = truncating_cast(u128::MAX - 5);
    assert_eq!(r, u64::MAX - 5);
    let r: i64 = truncating_cast(i128::MIN + 3);
    assert_eq!(r, 3i64);
}

#[test]
fn trait_methods_match_free_functions() {
    let r: u16 = (-1i16).wrapping_cast();
    assert_eq!(r, 65535u16);
    let r: i128 = 7i8.extending_cast();
    assert_eq!(r, 7i128);
    let r: u8 = 0xABCDu16.truncating_cast();
    assert_eq!(r, 0xCDu8);
}
