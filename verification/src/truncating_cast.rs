//! The truncating conversion matrix: every strictly narrowing
//! same-signedness pair. Each implementation is the native narrowing cast; a
//! bit-vector proof characterizes the kept low-order bits as a residue, and
//! the model lemmas carry that over to reduction into the destination range.

use crate::model::{lemma_wrap_to_via_mod, IntBounds};
use crate::number::TruncatingCast;
use vstd::arithmetic::div_mod::lemma_mod_multiples_vanish;
use vstd::prelude::*;

verus! {

proof fn lemma_trunc_u16_u8(x: u16)
    by (bit_vector)
    ensures
        (x as u8) as int == x as int % 0x100,
{
}

impl TruncatingCast<u8> for u16 {
    fn truncating_cast(self) -> (r: u8) {
        proof {
            lemma_trunc_u16_u8(self);
        }
        #[verifier::truncate] (self as u8)
    }
}

proof fn lemma_trunc_u32_u8(x: u32)
    by (bit_vector)
    ensures
        (x as u8) as int == x as int % 0x100,
{
}

impl TruncatingCast<u8> for u32 {
    fn truncating_cast(self) -> (r: u8) {
        proof {
            lemma_trunc_u32_u8(self);
        }
        #[verifier::truncate] (self as u8)
    }
}

proof fn lemma_trunc_u32_u16(x: u32)
    by (bit_vector)
    ensures
        (x as u16) as int == x as int % 0x1_0000,
{
}

impl TruncatingCast<u16> for u32 {
    fn truncating_cast(self) -> (r: u16) {
        proof {
            lemma_trunc_u32_u16(self);
        }
        #[verifier::truncate] (self as u16)
    }
}

proof fn lemma_trunc_u64_u8(x: u64)
    by (bit_vector)
    ensures
        (x as u8) as int == x as int % 0x100,
{
}

impl TruncatingCast<u8> for u64 {
    fn truncating_cast(self) -> (r: u8) {
        proof {
            lemma_trunc_u64_u8(self);
        }
        #[verifier::truncate] (self as u8)
    }
}

proof fn lemma_trunc_u64_u16(x: u64)
    by (bit_vector)
    ensures
        (x as u16) as int == x as int % 0x1_0000,
{
}

impl TruncatingCast<u16> for u64 {
    fn truncating_cast(self) -> (r: u16) {
        proof {
            lemma_trunc_u64_u16(self);
        }
        #[verifier::truncate] (self as u16)
    }
}

proof fn lemma_trunc_u64_u32(x: u64)
    by (bit_vector)
    ensures
        (x as u32) as int == x as int % 0x1_0000_0000,
{
}

impl TruncatingCast<u32> for u64 {
    fn truncating_cast(self) -> (r: u32) {
        proof {
            lemma_trunc_u64_u32(self);
        }
        #[verifier::truncate] (self as u32)
    }
}

proof fn lemma_trunc_u128_u8(x: u128)
    by (bit_vector)
    ensures
        (x as u8) as int == x as int % 0x100,
{
}

impl TruncatingCast<u8> for u128 {
    fn truncating_cast(self) -> (r: u8) {
        proof {
            lemma_trunc_u128_u8(self);
        }
        #[verifier::truncate] (self as u8)
    }
}

proof fn lemma_trunc_u128_u16(x: u128)
    by (bit_vector)
    ensures
        (x as u16) as int == x as int % 0x1_0000,
{
}

impl TruncatingCast<u16> for u128 {
    fn truncating_cast(self) -> (r: u16) {
        proof {
            lemma_trunc_u128_u16(self);
        }
        #[verifier::truncate] (self as u16)
    }
}

proof fn lemma_trunc_u128_u32(x: u128)
    by (bit_vector)
    ensures
        (x as u32) as int == x as int % 0x1_0000_0000,
{
}

impl TruncatingCast<u32> for u128 {
    fn truncating_cast(self) -> (r: u32) {
        proof {
            lemma_trunc_u128_u32(self);
        }
        #[verifier::truncate] (self as u32)
    }
}

proof fn lemma_trunc_u128_u64(x: u128)
    by (bit_vector)
    ensures
        (x as u64) as int == x as int % 0x1_0000_0000_0000_0000,
{
}

impl TruncatingCast<u64> for u128 {
    fn truncating_cast(self) -> (r: u64) {
        proof {
            lemma_trunc_u128_u64(self);
        }
        #[verifier::truncate] (self as u64)
    }
}

proof fn lemma_trunc_i16_i8(x: i16)
    by (bit_vector)
    ensures
        (x as int - i16::MIN as int) % (i8::MAX as int - i8::MIN as int + 1) <= i8::MAX as int ==> (x as i8) as int == (x as int - i16::MIN as int) % (i8::MAX as int - i8::MIN as int + 1),
        (x as int - i16::MIN as int) % (i8::MAX as int - i8::MIN as int + 1) > i8::MAX as int ==> (x as i8) as int == (x as int - i16::MIN as int) % (i8::MAX as int - i8::MIN as int + 1) - (i8::MAX as int - i8::MIN as int + 1),
{
}

impl TruncatingCast<i8> for i16 {
    fn truncating_cast(self) -> (r: i8) {
        proof {
            lemma_trunc_i16_i8(self);
            lemma_mod_multiples_vanish(0x80, self as int, (i8::MAX as int - i8::MIN as int + 1));
            assert((self as int - i16::MIN as int) % (i8::MAX as int - i8::MIN as int + 1) == (self as int) % (i8::MAX as int - i8::MIN as int + 1));
            lemma_wrap_to_via_mod(self as int, i8::MIN as int, i8::MAX as int);
        }
        #[verifier::truncate] (self as i8)
    }
}

proof fn lemma_trunc_i32_i8(x: i32)
    by (bit_vector)
    ensures
        (x as int - i32::MIN as int) % (i8::MAX as int - i8::MIN as int + 1) <= i8::MAX as int ==> (x as i8) as int == (x as int - i32::MIN as int) % (i8::MAX as int - i8::MIN as int + 1),
        (x as int - i32::MIN as int) % (i8::MAX as int - i8::MIN as int + 1) > i8::MAX as int ==> (x as i8) as int == (x as int - i32::MIN as int) % (i8::MAX as int - i8::MIN as int + 1) - (i8::MAX as int - i8::MIN as int + 1),
{
}

impl TruncatingCast<i8> for i32 {
    fn truncating_cast(self) -> (r: i8) {
        proof {
            lemma_trunc_i32_i8(self);
            lemma_mod_multiples_vanish(0x80_0000, self as int, (i8::MAX as int - i8::MIN as int + 1));
            assert((self as int - i32::MIN as int) % (i8::MAX as int - i8::MIN as int + 1) == (self as int) % (i8::MAX as int - i8::MIN as int + 1));
            lemma_wrap_to_via_mod(self as int, i8::MIN as int, i8::MAX as int);
        }
        #[verifier::truncate] (self as i8)
    }
}

proof fn lemma_trunc_i32_i16(x: i32)
    by (bit_vector)
    ensures
        (x as int - i32::MIN as int) % (i16::MAX as int - i16::MIN as int + 1) <= i16::MAX as int ==> (x as i16) as int == (x as int - i32::MIN as int) % (i16::MAX as int - i16::MIN as int + 1),
        (x as int - i32::MIN as int) % (i16::MAX as int - i16::MIN as int + 1) > i16::MAX as int ==> (x as i16) as int == (x as int - i32::MIN as int) % (i16::MAX as int - i16::MIN as int + 1) - (i16::MAX as int - i16::MIN as int + 1),
{
}

impl TruncatingCast<i16> for i32 {
    fn truncating_cast(self) -> (r: i16) {
        proof {
            lemma_trunc_i32_i16(self);
            lemma_mod_multiples_vanish(0x8000, self as int, (i16::MAX as int - i16::MIN as int + 1));
            assert((self as int - i32::MIN as int) % (i16::MAX as int - i16::MIN as int + 1) == (self as int) % (i16::MAX as int - i16::MIN as int + 1));
            lemma_wrap_to_via_mod(self as int, i16::MIN as int, i16::MAX as int);
        }
        #[verifier::truncate] (self as i16)
    }
}

proof fn lemma_trunc_i64_i8(x: i64)
    by (bit_vector)
    ensures
        (x as int - i64::MIN as int) % (i8::MAX as int - i8::MIN as int + 1) <= i8::MAX as int ==> (x as i8) as int == (x as int - i64::MIN as int) % (i8::MAX as int - i8::MIN as int + 1),
        (x as int - i64::MIN as int) % (i8::MAX as int - i8::MIN as int + 1) > i8::MAX as int ==> (x as i8) as int == (x as int - i64::MIN as int) % (i8::MAX as int - i8::MIN as int + 1) - (i8::MAX as int - i8::MIN as int + 1),
{
}

impl TruncatingCast<i8> for i64 {
    fn truncating_cast(self) -> (r: i8) {
        proof {
            lemma_trunc_i64_i8(self);
            lemma_mod_multiples_vanish(0x80_0000_0000_0000, self as int, (i8::MAX as int - i8::MIN as int + 1));
            assert((self as int - i64::MIN as int) % (i8::MAX as int - i8::MIN as int + 1) == (self as int) % (i8::MAX as int - i8::MIN as int + 1));
            lemma_wrap_to_via_mod(self as int, i8::MIN as int, i8::MAX as int);
        }
        #[verifier::truncate] (self as i8)
    }
}

proof fn lemma_trunc_i64_i16(x: i64)
    by (bit_vector)
    ensures
        (x as int - i64::MIN as int) % (i16::MAX as int - i16::MIN as int + 1) <= i16::MAX as int ==> (x as i16) as int == (x as int - i64::MIN as int) % (i16::MAX as int - i16::MIN as int + 1),
        (x as int - i64::MIN as int) % (i16::MAX as int - i16::MIN as int + 1) > i16::MAX as int ==> (x as i16) as int == (x as int - i64::MIN as int) % (i16::MAX as int - i16::MIN as int + 1) - (i16::MAX as int - i16::MIN as int + 1),
{
}

impl TruncatingCast<i16> for i64 {
    fn truncating_cast(self) -> (r: i16) {
        proof {
            lemma_trunc_i64_i16(self);
            lemma_mod_multiples_vanish(0x8000_0000_0000, self as int, (i16::MAX as int - i16::MIN as int + 1));
            assert((self as int - i64::MIN as int) % (i16::MAX as int - i16::MIN as int + 1) == (self as int) % (i16::MAX as int - i16::MIN as int + 1));
            lemma_wrap_to_via_mod(self as int, i16::MIN as int, i16::MAX as int);
        }
        #[verifier::truncate] (self as i16)
    }
}

proof fn lemma_trunc_i64_i32(x: i64)
    by (bit_vector)
    ensures
        (x as int - i64::MIN as int) % (i32::MAX as int - i32::MIN as int + 1) <= i32::MAX as int ==> (x as i32) as int == (x as int - i64::MIN as int) % (i32::MAX as int - i32::MIN as int + 1),
        (x as int - i64::MIN as int) % (i32::MAX as int - i32::MIN as int + 1) > i32::MAX as int ==> (x as i32) as int == (x as int - i64::MIN as int) % (i32::MAX as int - i32::MIN as int + 1) - (i32::MAX as int - i32::MIN as int + 1),
{
}

impl TruncatingCast<i32> for i64 {
    fn truncating_cast(self) -> (r: i32) {
        proof {
            lemma_trunc_i64_i32(self);
            lemma_mod_multiples_vanish(0x8000_0000, self as int, (i32::MAX as int - i32::MIN as int + 1));
            assert((self as int - i64::MIN as int) % (i32::MAX as int - i32::MIN as int + 1) == (self as int) % (i32::MAX as int - i32::MIN as int + 1));
            lemma_wrap_to_via_mod(self as int, i32::MIN as int, i32::MAX as int);
        }
        #[verifier::truncate] (self as i32)
    }
}

proof fn lemma_trunc_i128_i8(x: i128)
    by (bit_vector)
    ensures
        (x as int - i128::MIN as int) % (i8::MAX as int - i8::MIN as int + 1) <= i8::MAX as int ==> (x as i8) as int == (x as int - i128::MIN as int) % (i8::MAX as int - i8::MIN as int + 1),
        (x as int - i128::MIN as int) % (i8::MAX as int - i8::MIN as int + 1) > i8::MAX as int ==> (x as i8) as int == (x as int - i128::MIN as int) % (i8::MAX as int - i8::MIN as int + 1) - (i8::MAX as int - i8::MIN as int + 1),
{
}

impl TruncatingCast<i8> for i128 {
    fn truncating_cast(self) -> (r: i8) {
        proof {
            lemma_trunc_i128_i8(self);
            lemma_mod_multiples_vanish(0x80_0000_0000_0000_0000_0000_0000_0000, self as int, (i8::MAX as int - i8::MIN as int + 1));
            assert((self as int - i128::MIN as int) % (i8::MAX as int - i8::MIN as int + 1) == (self as int) % (i8::MAX as int - i8::MIN as int + 1));
            lemma_wrap_to_via_mod(self as int, i8::MIN as int, i8::MAX as int);
        }
        #[verifier::truncate] (self as i8)
    }
}

proof fn lemma_trunc_i128_i16(x: i128)
    by (bit_vector)
    ensures
        (x as int - i128::MIN as int) % (i16::MAX as int - i16::MIN as int + 1) <= i16::MAX as int ==> (x as i16) as int == (x as int - i128::MIN as int) % (i16::MAX as int - i16::MIN as int + 1),
        (x as int - i128::MIN as int) % (i16::MAX as int - i16::MIN as int + 1) > i16::MAX as int ==> (x as i16) as int == (x as int - i128::MIN as int) % (i16::MAX as int - i16::MIN as int + 1) - (i16::MAX as int - i16::MIN as int + 1),
{
}

impl TruncatingCast<i16> for i128 {
    fn truncating_cast(self) -> (r: i16) {
        proof {
            lemma_trunc_i128_i16(self);
            lemma_mod_multiples_vanish(0x8000_0000_0000_0000_0000_0000_0000, self as int, (i16::MAX as int - i16::MIN as int + 1));
            assert((self as int - i128::MIN as int) % (i16::MAX as int - i16::MIN as int + 1) == (self as int) % (i16::MAX as int - i16::MIN as int + 1));
            lemma_wrap_to_via_mod(self as int, i16::MIN as int, i16::MAX as int);
        }
        #[verifier::truncate] (self as i16)
    }
}

proof fn lemma_trunc_i128_i32(x: i128)
    by (bit_vector)
    ensures
        (x as int - i128::MIN as int) % (i32::MAX as int - i32::MIN as int + 1) <= i32::MAX as int ==> (x as i32) as int == (x as int - i128::MIN as int) % (i32::MAX as int - i32::MIN as int + 1),
        (x as int - i128::MIN as int) % (i32::MAX as int - i32::MIN as int + 1) > i32::MAX as int ==> (x as i32) as int == (x as int - i128::MIN as int) % (i32::MAX as int - i32::MIN as int + 1) - (i32::MAX as int - i32::MIN as int + 1),
{
}

impl TruncatingCast<i32> for i128 {
    fn truncating_cast(self) -> (r: i32) {
        proof {
            lemma_trunc_i128_i32(self);
            lemma_mod_multiples_vanish(0x8000_0000_0000_0000_0000_0000, self as int, (i32::MAX as int - i32::MIN as int + 1));
            assert((self as int - i128::MIN as int) % (i32::MAX as int - i32::MIN as int + 1) == (self as int) % (i32::MAX as int - i32::MIN as int + 1));
            lemma_wrap_to_via_mod(self as int, i32::MIN as int, i32::MAX as int);
        }
        #[verifier::truncate] (self as i32)
    }
}

proof fn lemma_trunc_i128_i64(x: i128)
    by (bit_vector)
    ensures
        (x as int - i128::MIN as int) % (i64::MAX as int - i64::MIN as int + 1) <= i64::MAX as int ==> (x as i64) as int == (x as int - i128::MIN as int) % (i64::MAX as int - i64::MIN as int + 1),
        (x as int - i128::MIN as int) % (i64::MAX as int - i64::MIN as int + 1) > i64::MAX as int ==> (x as i64) as int == (x as int - i128::MIN as int) % (i64::MAX as int - i64::MIN as int + 1) - (i64::MAX as int - i64::MIN as int + 1),
{
}

impl TruncatingCast<i64> for i128 {
    fn truncating_cast(self) -> (r: i64) {
        proof {
            lemma_trunc_i128_i64(self);
            lemma_mod_multiples_vanish(0x8000_0000_0000_0000, self as int, (i64::MAX as int - i64::MIN as int + 1));
            assert((self as int - i128::MIN as int) % (i64::MAX as int - i64::MIN as int + 1) == (self as int) % (i64::MAX as int - i64::MIN as int + 1));
            lemma_wrap_to_via_mod(self as int, i64::MIN as int, i64::MAX as int);
        }
        #[verifier::truncate] (self as i64)
    }
}

} // verus!
