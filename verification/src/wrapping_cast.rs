//! The wrapping conversion matrix: every same-width signed/unsigned pair.
//! Each implementation is the native reinterpreting cast; a bit-vector proof
//! characterizes the reinterpretation piecewise, and the model lemmas carry
//! that over to reduction into the destination range.

use crate::model::{lemma_mod_in_window, lemma_wrap_to_via_mod, IntBounds};
use crate::number::WrappingCast;
use vstd::arithmetic::div_mod::lemma_small_mod;
use vstd::prelude::*;

verus! {

proof fn lemma_cast_u8_i8(x: u8)
    by (bit_vector)
    ensures
        x <= i8::MAX as u8 ==> (x as i8) as int == x as int,
        x > i8::MAX as u8 ==> (x as i8) as int == x as int - (u8::MAX as int + 1),
{
}

impl WrappingCast<i8> for u8 {
    fn wrapping_cast(self) -> (r: i8) {
        proof {
            lemma_cast_u8_i8(self);
            lemma_small_mod(self as nat, (u8::MAX as int + 1) as nat);
            lemma_wrap_to_via_mod(self as int, i8::MIN as int, i8::MAX as int);
        }
        #[verifier::truncate] (self as i8)
    }
}

proof fn lemma_cast_u16_i16(x: u16)
    by (bit_vector)
    ensures
        x <= i16::MAX as u16 ==> (x as i16) as int == x as int,
        x > i16::MAX as u16 ==> (x as i16) as int == x as int - (u16::MAX as int + 1),
{
}

impl WrappingCast<i16> for u16 {
    fn wrapping_cast(self) -> (r: i16) {
        proof {
            lemma_cast_u16_i16(self);
            lemma_small_mod(self as nat, (u16::MAX as int + 1) as nat);
            lemma_wrap_to_via_mod(self as int, i16::MIN as int, i16::MAX as int);
        }
        #[verifier::truncate] (self as i16)
    }
}

proof fn lemma_cast_u32_i32(x: u32)
    by (bit_vector)
    ensures
        x <= i32::MAX as u32 ==> (x as i32) as int == x as int,
        x > i32::MAX as u32 ==> (x as i32) as int == x as int - (u32::MAX as int + 1),
{
}

impl WrappingCast<i32> for u32 {
    fn wrapping_cast(self) -> (r: i32) {
        proof {
            lemma_cast_u32_i32(self);
            lemma_small_mod(self as nat, (u32::MAX as int + 1) as nat);
            lemma_wrap_to_via_mod(self as int, i32::MIN as int, i32::MAX as int);
        }
        #[verifier::truncate] (self as i32)
    }
}

proof fn lemma_cast_u64_i64(x: u64)
    by (bit_vector)
    ensures
        x <= i64::MAX as u64 ==> (x as i64) as int == x as int,
        x > i64::MAX as u64 ==> (x as i64) as int == x as int - (u64::MAX as int + 1),
{
}

impl WrappingCast<i64> for u64 {
    fn wrapping_cast(self) -> (r: i64) {
        proof {
            lemma_cast_u64_i64(self);
            lemma_small_mod(self as nat, (u64::MAX as int + 1) as nat);
            lemma_wrap_to_via_mod(self as int, i64::MIN as int, i64::MAX as int);
        }
        #[verifier::truncate] (self as i64)
    }
}

proof fn lemma_cast_u128_i128(x: u128)
    by (bit_vector)
    ensures
        x <= i128::MAX as u128 ==> (x as i128) as int == x as int,
        x > i128::MAX as u128 ==> (x as i128) as int == x as int - (u128::MAX as int + 1),
{
}

impl WrappingCast<i128> for u128 {
    fn wrapping_cast(self) -> (r: i128) {
        proof {
            lemma_cast_u128_i128(self);
            lemma_small_mod(self as nat, (u128::MAX as int + 1) as nat);
            lemma_wrap_to_via_mod(self as int, i128::MIN as int, i128::MAX as int);
        }
        #[verifier::truncate] (self as i128)
    }
}

proof fn lemma_cast_i8_u8(x: i8)
    by (bit_vector)
    ensures
        x >= 0 ==> (x as u8) as int == x as int,
        x < 0 ==> (x as u8) as int == x as int + (u8::MAX as int + 1),
{
}

impl WrappingCast<u8> for i8 {
    fn wrapping_cast(self) -> (r: u8) {
        proof {
            lemma_cast_i8_u8(self);
            if self >= 0 {
                lemma_small_mod(self as nat, (u8::MAX as int + 1) as nat);
            } else {
                lemma_mod_in_window(self as int, 1, (u8::MAX as int + 1));
            }
        }
        #[verifier::truncate] (self as u8)
    }
}

proof fn lemma_cast_i16_u16(x: i16)
    by (bit_vector)
    ensures
        x >= 0 ==> (x as u16) as int == x as int,
        x < 0 ==> (x as u16) as int == x as int + (u16::MAX as int + 1),
{
}

impl WrappingCast<u16> for i16 {
    fn wrapping_cast(self) -> (r: u16) {
        proof {
            lemma_cast_i16_u16(self);
            if self >= 0 {
                lemma_small_mod(self as nat, (u16::MAX as int + 1) as nat);
            } else {
                lemma_mod_in_window(self as int, 1, (u16::MAX as int + 1));
            }
        }
        #[verifier::truncate] (self as u16)
    }
}

proof fn lemma_cast_i32_u32(x: i32)
    by (bit_vector)
    ensures
        x >= 0 ==> (x as u32) as int == x as int,
        x < 0 ==> (x as u32) as int == x as int + (u32::MAX as int + 1),
{
}

impl WrappingCast<u32> for i32 {
    fn wrapping_cast(self) -> (r: u32) {
        proof {
            lemma_cast_i32_u32(self);
            if self >= 0 {
                lemma_small_mod(self as nat, (u32::MAX as int + 1) as nat);
            } else {
                lemma_mod_in_window(self as int, 1, (u32::MAX as int + 1));
            }
        }
        #[verifier::truncate] (self as u32)
    }
}

proof fn lemma_cast_i64_u64(x: i64)
    by (bit_vector)
    ensures
        x >= 0 ==> (x as u64) as int == x as int,
        x < 0 ==> (x as u64) as int == x as int + (u64::MAX as int + 1),
{
}

impl WrappingCast<u64> for i64 {
    fn wrapping_cast(self) -> (r: u64) {
        proof {
            lemma_cast_i64_u64(self);
            if self >= 0 {
                lemma_small_mod(self as nat, (u64::MAX as int + 1) as nat);
            } else {
                lemma_mod_in_window(self as int, 1, (u64::MAX as int + 1));
            }
        }
        #[verifier::truncate] (self as u64)
    }
}

proof fn lemma_cast_i128_u128(x: i128)
    by (bit_vector)
    ensures
        x >= 0 ==> (x as u128) as int == x as int,
        x < 0 ==> (x as u128) as int == x as int + (u128::MAX as int + 1),
{
}

impl WrappingCast<u128> for i128 {
    fn wrapping_cast(self) -> (r: u128) {
        proof {
            lemma_cast_i128_u128(self);
            if self >= 0 {
                lemma_small_mod(self as nat, (u128::MAX as int + 1) as nat);
            } else {
                lemma_mod_in_window(self as int, 1, (u128::MAX as int + 1));
            }
        }
        #[verifier::truncate] (self as u128)
    }
}

impl WrappingCast<isize> for usize {
    fn wrapping_cast(self) -> (r: isize) {
        if usize::BITS == 64 {
            let w: u64 = self as u64;
            let y: i64 = w.wrapping_cast();
            y as isize
        } else {
            let w: u32 = self as u32;
            let y: i32 = w.wrapping_cast();
            y as isize
        }
    }
}

impl WrappingCast<usize> for isize {
    fn wrapping_cast(self) -> (r: usize) {
        if usize::BITS == 64 {
            let w: i64 = self as i64;
            let y: u64 = w.wrapping_cast();
            y as usize
        } else {
            let w: i32 = self as i32;
            let y: u32 = w.wrapping_cast();
            y as usize
        }
    }
}

} // verus!
