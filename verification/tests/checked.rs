use explicit_cast::number::{checked_cast, CheckedCast, FloatClass, NumCastError};

#[test]
fn overflow_u16_to_u8() {
    let r: Result<u8, NumCastError> = checked_cast(300u16);
    assert_eq!(r, Err(NumCastError::Overflow));
}

#[test]
fn underflow_i32_to_u16() {
    let r: Result<u16, NumCastError> = checked_cast(-5i32);
    assert_eq!(r, Err(NumCastError::Underflow));
}

#[test]
fn overflow_u8_to_i8() {
    let r: Result<i8, NumCastError> = checked_cast(200u8);
    assert_eq!(r, Err(NumCastError::Overflow));
}

#[test]
fn underflow_i8_to_u8() {
    let r: Result<u8, NumCastError> = checked_cast(-1i8);
    assert_eq!(r, Err(NumCastError::Underflow));
}

#[test]
fn in_range_values_pass_unchanged() {
    let r: Result<u8, NumCastError> = checked_cast(255u16);
    assert_eq!(r, Ok(255u8));
    let r: Result<u8, NumCastError> = checked_cast(0i16);
    assert_eq!(r, Ok(0u8));
    let r: Result<i8, NumCastError> = checked_cast(-128i32);
    assert_eq!(r, Ok(-128i8));
    let r: Result<i8, NumCastError> = checked_cast(127u64);
    assert_eq!(r, Ok(127i8));
    let r: Result<u64, NumCastError> = checked_cast(12i64);
    assert_eq!(r, Ok(12u64));
}

#[test]
fn just_out_of_range_values_fail() {
    let r: Result<u8, NumCastError> = checked_cast(256u16);
    assert_eq!(r, Err(NumCastError::Overflow));
    let r: Result<u8, NumCastError> = checked_cast(-1i16);
    assert_eq!(r, Err(NumCastError::Underflow));
    let r: Result<i8, NumCastError> = checked_cast(128i16);
    assert_eq!(r, Err(NumCastError::Overflow));
    let r: Result<i8, NumCastError> = checked_cast(-129i16);
    assert_eq!(r, Err(NumCastError::Underflow));
    let r: Result<u64, NumCastError> = checked_cast(-1i128);
    assert_eq!(r, Err(NumCastError::Underflow));
    let r: Result<i64, NumCastError> = checked_cast(u64::MAX);
    assert_eq!(r, Err(NumCastError::Overflow));
    let r: Result<u64, NumCastError> = checked_cast(u128::MAX);
    assert_eq!(r, Err(NumCastError::Overflow));
    let r: Result<i128, NumCastError> = checked_cast(u128::MAX);
    assert_eq!(r, Err(NumCastError::Overflow));
    let r: Result<u128, NumCastError> = checked_cast(i128::MIN);
    assert_eq!(r, Err(NumCastError::Underflow));
}

#[test]
fn wide_pairs_pass_in_range_values() {
    let r: Result<u64, NumCastError> = checked_cast(u64::MAX as u128);
    assert_eq!(r, Ok(u64::MAX));
    let r: Result<i128, NumCastError> = checked_cast(i128::MAX as u128);
    assert_eq!(r, Ok(i128::MAX));
    let r: Result<u128, NumCastError> = checked_cast(i128::MAX);
    assert_eq!(r, Ok(i128::MAX as u128));
    let r: Result<i64, NumCastError> = checked_cast(-9_000_000_000i128);
    assert_eq!(r, Ok(-9_000_000_000i64));
}

#[test]
fn infallible_pairs_round_trip() {
    let r: Result<u64, core::convert::Infallible> = checked_cast(209u8);
    assert_eq!(r, Ok(209u64));
    let r: Result<i128, core::convert::Infallible> = checked_cast(i64::MIN);
    assert_eq!(r, Ok(i64::MIN as i128));
    let r: Result<i16, core::convert::Infallible> = checked_cast(255u8);
    assert_eq!(r, Ok(255i16));
    let r: Result<u8, core::convert::Infallible> = checked_cast(77u8);
    assert_eq!(r, Ok(77u8));
}

#[test]
fn trait_method_matches_free_function() {
    let r: Result<u8, NumCastError> = 300u16.checked_cast();
    assert_eq!(r, Err(NumCastError::Overflow));
    let r: Result<u16, NumCastError> = 42u32.checked_cast();
    assert_eq!(r, Ok(42u16));
}

#[test]
fn platform_width_pairs_follow_word_size() {
    // a platform-signed value of 50000 narrowing to 16-bit signed is bound
    // checked, never treated as infallible
    let r: Result<i16, NumCastError> = checked_cast(50000isize);
    assert_eq!(r, Err(NumCastError::Overflow));
    let r: Result<u16, NumCastError> = checked_cast(70000usize);
    assert_eq!(r, Err(NumCastError::Overflow));
    let r: Result<usize, NumCastError> = checked_cast(-1isize);
    assert_eq!(r, Err(NumCastError::Underflow));

    // pairs whose rule depends on the compiled word width
    let r: Result<usize, NumCastError> = checked_cast(u64::MAX);
    assert_eq!(r.is_ok(), usize::BITS == 64);
    let r: Result<isize, NumCastError> = checked_cast(i64::MAX);
    assert_eq!(r.is_ok(), usize::BITS == 64);
    let r: Result<i32, NumCastError> = checked_cast(usize::MAX);
    assert_eq!(r, Err(NumCastError::Overflow));
    let r: Result<u32, NumCastError> = checked_cast(3_000_000_000usize);
    assert_eq!(r, Ok(3_000_000_000u32));
    let r: Result<isize, NumCastError> = checked_cast(u16::MAX);
    assert_eq!(r, Ok(65535isize));
}

#[test]
fn float_class_rejections() {
    assert_eq!(FloatClass::NaN.checked_to_u8(), Err(NumCastError::NaN));
    assert_eq!(FloatClass::Infinite.checked_to_u8(), Err(NumCastError::Infinite));
    assert_eq!(FloatClass::Fractional.checked_to_i16(), Err(NumCastError::Fractional));
    assert_eq!(FloatClass::AboveWholeRange.checked_to_u16(), Err(NumCastError::Overflow));
    assert_eq!(FloatClass::BelowWholeRange.checked_to_i8(), Err(NumCastError::Underflow));
}

#[test]
fn float_class_whole_values() {
    assert_eq!(FloatClass::Whole(2).checked_to_u8(), Ok(2u8));
    assert_eq!(FloatClass::Whole(300).checked_to_u8(), Err(NumCastError::Overflow));
    assert_eq!(FloatClass::Whole(-5).checked_to_u16(), Err(NumCastError::Underflow));
    assert_eq!(FloatClass::Whole(-128).checked_to_i8(), Ok(-128i8));
    assert_eq!(FloatClass::Whole(32768).checked_to_i16(), Err(NumCastError::Overflow));
    assert_eq!(FloatClass::Whole(65535).checked_to_u16(), Ok(65535u16));
}

#[test]
fn error_messages() {
    assert_eq!(NumCastError::Overflow.message(), "Overflow during numeric conversion");
    assert_eq!(NumCastError::Underflow.message(), "Underflow during numeric conversion");
    assert_eq!(NumCastError::Fractional.message(), "Cannot store fractional value without loss");
    assert_eq!(NumCastError::Infinite.message(), "Cannot store infinite value in finite type");
    assert_eq!(
        NumCastError::NaN.message(),
        "Cannot store NaN in type which does not support it"
    );
}
