//! The checked conversion matrix: one `CheckedCast` implementation per
//! ordered pair of integer types. A pair whose destination range contains
//! the whole source range has the uninhabited error type and cannot fail;
//! every other pair tests the bound or bounds the destination can actually
//! violate, the upper bound first. The platform-width pairs compare against
//! the platform-width limits themselves, so each bound test is exact for
//! the compiled word size.

use crate::model::IntBounds;
use crate::number::{CheckedCast, NumCastError};
use core::convert::Infallible;
use vstd::prelude::*;

verus! {

// from u8
impl CheckedCast<u8> for u8 {
    type Error = Infallible;

    open spec fn err_is(e: Infallible, kind: NumCastError) -> bool {
        false
    }

    fn checked_cast(self) -> (r: Result<u8, Infallible>) {
        Ok(self)
    }
}

impl CheckedCast<u16> for u8 {
    type Error = Infallible;

    open spec fn err_is(e: Infallible, kind: NumCastError) -> bool {
        false
    }

    fn checked_cast(self) -> (r: Result<u16, Infallible>) {
        Ok(self as u16)
    }
}

impl CheckedCast<u32> for u8 {
    type Error = Infallible;

    open spec fn err_is(e: Infallible, kind: NumCastError) -> bool {
        false
    }

    fn checked_cast(self) -> (r: Result<u32, Infallible>) {
        Ok(self as u32)
    }
}

impl CheckedCast<u64> for u8 {
    type Error = Infallible;

    open spec fn err_is(e: Infallible, kind: NumCastError) -> bool {
        false
    }

    fn checked_cast(self) -> (r: Result<u64, Infallible>) {
        Ok(self as u64)
    }
}

impl CheckedCast<u128> for u8 {
    type Error = Infallible;

    open spec fn err_is(e: Infallible, kind: NumCastError) -> bool {
        false
    }

    fn checked_cast(self) -> (r: Result<u128, Infallible>) {
        Ok(self as u128)
    }
}

impl CheckedCast<i8> for u8 {
    type Error = NumCastError;

    open spec fn err_is(e: NumCastError, kind: NumCastError) -> bool {
        e == kind
    }

    fn checked_cast(self) -> (r: Result<i8, NumCastError>) {
        if self > i8::MAX as u8 {
            return Err(NumCastError::Overflow);
        }
        Ok(self as i8)
    }
}

impl CheckedCast<i16> for u8 {
    type Error = Infallible;

    open spec fn err_is(e: Infallible, kind: NumCastError) -> bool {
        false
    }

    fn checked_cast(self) -> (r: Result<i16, Infallible>) {
        Ok(self as i16)
    }
}

impl CheckedCast<i32> for u8 {
    type Error = Infallible;

    open spec fn err_is(e: Infallible, kind: NumCastError) -> bool {
        false
    }

    fn checked_cast(self) -> (r: Result<i32, Infallible>) {
        Ok(self as i32)
    }
}

impl CheckedCast<i64> for u8 {
    type Error = Infallible;

    open spec fn err_is(e: Infallible, kind: NumCastError) -> bool {
        false
    }

    fn checked_cast(self) -> (r: Result<i64, Infallible>) {
        Ok(self as i64)
    }
}

impl CheckedCast<i128> for u8 {
    type Error = Infallible;

    open spec fn err_is(e: Infallible, kind: NumCastError) -> bool {
        false
    }

    fn checked_cast(self) -> (r: Result<i128, Infallible>) {
        Ok(self as i128)
    }
}

impl CheckedCast<usize> for u8 {
    type Error = Infallible;

    open spec fn err_is(e: Infallible, kind: NumCastError) -> bool {
        false
    }

    fn checked_cast(self) -> (r: Result<usize, Infallible>) {
        Ok(self as usize)
    }
}

impl CheckedCast<isize> for u8 {
    type Error = Infallible;

    open spec fn err_is(e: Infallible, kind: NumCastError) -> bool {
        false
    }

    fn checked_cast(self) -> (r: Result<isize, Infallible>) {
        Ok(self as isize)
    }
}

// from u16
impl CheckedCast<u8> for u16 {
    type Error = NumCastError;

    open spec fn err_is(e: NumCastError, kind: NumCastError) -> bool {
        e == kind
    }

    fn checked_cast(self) -> (r: Result<u8, NumCastError>) {
        if self > u8::MAX as u16 {
            return Err(NumCastError::Overflow);
        }
        Ok(self as u8)
    }
}

impl CheckedCast<u16> for u16 {
    type Error = Infallible;

    open spec fn err_is(e: Infallible, kind: NumCastError) -> bool {
        false
    }

    fn checked_cast(self) -> (r: Result<u16, Infallible>) {
        Ok(self)
    }
}

impl CheckedCast<u32> for u16 {
    type Error = Infallible;

    open spec fn err_is(e: Infallible, kind: NumCastError) -> bool {
        false
    }

    fn checked_cast(self) -> (r: Result<u32, Infallible>) {
        Ok(self as u32)
    }
}

impl CheckedCast<u64> for u16 {
    type Error = Infallible;

    open spec fn err_is(e: Infallible, kind: NumCastError) -> bool {
        false
    }

    fn checked_cast(self) -> (r: Result<u64, Infallible>) {
        Ok(self as u64)
    }
}

impl CheckedCast<u128> for u16 {
    type Error = Infallible;

    open spec fn err_is(e: Infallible, kind: NumCastError) -> bool {
        false
    }

    fn checked_cast(self) -> (r: Result<u128, Infallible>) {
        Ok(self as u128)
    }
}

impl CheckedCast<i8> for u16 {
    type Error = NumCastError;

    open spec fn err_is(e: NumCastError, kind: NumCastError) -> bool {
        e == kind
    }

    fn checked_cast(self) -> (r: Result<i8, NumCastError>) {
        if self > i8::MAX as u16 {
            return Err(NumCastError::Overflow);
        }
        Ok(self as i8)
    }
}

impl CheckedCast<i16> for u16 {
    type Error = NumCastError;

    open spec fn err_is(e: NumCastError, kind: NumCastError) -> bool {
        e == kind
    }

    fn checked_cast(self) -> (r: Result<i16, NumCastError>) {
        if self > i16::MAX as u16 {
            return Err(NumCastError::Overflow);
        }
        Ok(self as i16)
    }
}

impl CheckedCast<i32> for u16 {
    type Error = Infallible;

    open spec fn err_is(e: Infallible, kind: NumCastError) -> bool {
        false
    }

    fn checked_cast(self) -> (r: Result<i32, Infallible>) {
        Ok(self as i32)
    }
}

impl CheckedCast<i64> for u16 {
    type Error = Infallible;

    open spec fn err_is(e: Infallible, kind: NumCastError) -> bool {
        false
    }

    fn checked_cast(self) -> (r: Result<i64, Infallible>) {
        Ok(self as i64)
    }
}

impl CheckedCast<i128> for u16 {
    type Error = Infallible;

    open spec fn err_is(e: Infallible, kind: NumCastError) -> bool {
        false
    }

    fn checked_cast(self) -> (r: Result<i128, Infallible>) {
        Ok(self as i128)
    }
}

impl CheckedCast<usize> for u16 {
    type Error = Infallible;

    open spec fn err_is(e: Infallible, kind: NumCastError) -> bool {
        false
    }

    fn checked_cast(self) -> (r: Result<usize, Infallible>) {
        Ok(self as usize)
    }
}

impl CheckedCast<isize> for u16 {
    type Error = NumCastError;

    open spec fn err_is(e: NumCastError, kind: NumCastError) -> bool {
        e == kind
    }

    fn checked_cast(self) -> (r: Result<isize, NumCastError>) {
        Ok(self as isize)
    }
}

// from u32
impl CheckedCast<u8> for u32 {
    type Error = NumCastError;

    open spec fn err_is(e: NumCastError, kind: NumCastError) -> bool {
        e == kind
    }

    fn checked_cast(self) -> (r: Result<u8, NumCastError>) {
        if self > u8::MAX as u32 {
            return Err(NumCastError::Overflow);
        }
        Ok(self as u8)
    }
}

impl CheckedCast<u16> for u32 {
    type Error = NumCastError;

    open spec fn err_is(e: NumCastError, kind: NumCastError) -> bool {
        e == kind
    }

    fn checked_cast(self) -> (r: Result<u16, NumCastError>) {
        if self > u16::MAX as u32 {
            return Err(NumCastError::Overflow);
        }
        Ok(self as u16)
    }
}

impl CheckedCast<u32> for u32 {
    type Error = Infallible;

    open spec fn err_is(e: Infallible, kind: NumCastError) -> bool {
        false
    }

    fn checked_cast(self) -> (r: Result<u32, Infallible>) {
        Ok(self)
    }
}

impl CheckedCast<u64> for u32 {
    type Error = Infallible;

    open spec fn err_is(e: Infallible, kind: NumCastError) -> bool {
        false
    }

    fn checked_cast(self) -> (r: Result<u64, Infallible>) {
        Ok(self as u64)
    }
}

impl CheckedCast<u128> for u32 {
    type Error = Infallible;

    open spec fn err_is(e: Infallible, kind: NumCastError) -> bool {
        false
    }

    fn checked_cast(self) -> (r: Result<u128, Infallible>) {
        Ok(self as u128)
    }
}

impl CheckedCast<i8> for u32 {
    type Error = NumCastError;

    open spec fn err_is(e: NumCastError, kind: NumCastError) -> bool {
        e == kind
    }

    fn checked_cast(self) -> (r: Result<i8, NumCastError>) {
        if self > i8::MAX as u32 {
            return Err(NumCastError::Overflow);
        }
        Ok(self as i8)
    }
}

impl CheckedCast<i16> for u32 {
    type Error = NumCastError;

    open spec fn err_is(e: NumCastError, kind: NumCastError) -> bool {
        e == kind
    }

    fn checked_cast(self) -> (r: Result<i16, NumCastError>) {
        if self > i16::MAX as u32 {
            return Err(NumCastError::Overflow);
        }
        Ok(self as i16)
    }
}

impl CheckedCast<i32> for u32 {
    type Error = NumCastError;

    open spec fn err_is(e: NumCastError, kind: NumCastError) -> bool {
        e == kind
    }

    fn checked_cast(self) -> (r: Result<i32, NumCastError>) {
        if self > i32::MAX as u32 {
            return Err(NumCastError::Overflow);
        }
        Ok(self as i32)
    }
}

impl CheckedCast<i64> for u32 {
    type Error = Infallible;

    open spec fn err_is(e: Infallible, kind: NumCastError) -> bool {
        false
    }

    fn checked_cast(self) -> (r: Result<i64, Infallible>) {
        Ok(self as i64)
    }
}

impl CheckedCast<i128> for u32 {
    type Error = Infallible;

    open spec fn err_is(e: Infallible, kind: NumCastError) -> bool {
        false
    }

    fn checked_cast(self) -> (r: Result<i128, Infallible>) {
        Ok(self as i128)
    }
}

impl CheckedCast<usize> for u32 {
    type Error = NumCastError;

    open spec fn err_is(e: NumCastError, kind: NumCastError) -> bool {
        e == kind
    }

    fn checked_cast(self) -> (r: Result<usize, NumCastError>) {
        Ok(self as usize)
    }
}

impl CheckedCast<isize> for u32 {
    type Error = NumCastError;

    open spec fn err_is(e: NumCastError, kind: NumCastError) -> bool {
        e == kind
    }

    fn checked_cast(self) -> (r: Result<isize, NumCastError>) {
        if self as usize > isize::MAX as usize {
            return Err(NumCastError::Overflow);
        }
        Ok(self as isize)
    }
}

// from u64
impl CheckedCast<u8> for u64 {
    type Error = NumCastError;

    open spec fn err_is(e: NumCastError, kind: NumCastError) -> bool {
        e == kind
    }

    fn checked_cast(self) -> (r: Result<u8, NumCastError>) {
        if self > u8::MAX as u64 {
            return Err(NumCastError::Overflow);
        }
        Ok(self as u8)
    }
}

impl CheckedCast<u16> for u64 {
    type Error = NumCastError;

    open spec fn err_is(e: NumCastError, kind: NumCastError) -> bool {
        e == kind
    }

    fn checked_cast(self) -> (r: Result<u16, NumCastError>) {
        if self > u16::MAX as u64 {
            return Err(NumCastError::Overflow);
        }
        Ok(self as u16)
    }
}

impl CheckedCast<u32> for u64 {
    type Error = NumCastError;

    open spec fn err_is(e: NumCastError, kind: NumCastError) -> bool {
        e == kind
    }

    fn checked_cast(self) -> (r: Result<u32, NumCastError>) {
        if self > u32::MAX as u64 {
            return Err(NumCastError::Overflow);
        }
        Ok(self as u32)
    }
}

impl CheckedCast<u64> for u64 {
    type Error = Infallible;

    open spec fn err_is(e: Infallible, kind: NumCastError) -> bool {
        false
    }

    fn checked_cast(self) -> (r: Result<u64, Infallible>) {
        Ok(self)
    }
}

impl CheckedCast<u128> for u64 {
    type Error = Infallible;

    open spec fn err_is(e: Infallible, kind: NumCastError) -> bool {
        false
    }

    fn checked_cast(self) -> (r: Result<u128, Infallible>) {
        Ok(self as u128)
    }
}

impl CheckedCast<i8> for u64 {
    type Error = NumCastError;

    open spec fn err_is(e: NumCastError, kind: NumCastError) -> bool {
        e == kind
    }

    fn checked_cast(self) -> (r: Result<i8, NumCastError>) {
        if self > i8::MAX as u64 {
            return Err(NumCastError::Overflow);
        }
        Ok(self as i8)
    }
}

impl CheckedCast<i16> for u64 {
    type Error = NumCastError;

    open spec fn err_is(e: NumCastError, kind: NumCastError) -> bool {
        e == kind
    }

    fn checked_cast(self) -> (r: Result<i16, NumCastError>) {
        if self > i16::MAX as u64 {
            return Err(NumCastError::Overflow);
        }
        Ok(self as i16)
    }
}

impl CheckedCast<i32> for u64 {
    type Error = NumCastError;

    open spec fn err_is(e: NumCastError, kind: NumCastError) -> bool {
        e == kind
    }

    fn checked_cast(self) -> (r: Result<i32, NumCastError>) {
        if self > i32::MAX as u64 {
            return Err(NumCastError::Overflow);
        }
        Ok(self as i32)
    }
}

impl CheckedCast<i64> for u64 {
    type Error = NumCastError;

    open spec fn err_is(e: NumCastError, kind: NumCastError) -> bool {
        e == kind
    }

    fn checked_cast(self) -> (r: Result<i64, NumCastError>) {
        if self > i64::MAX as u64 {
            return Err(NumCastError::Overflow);
        }
        Ok(self as i64)
    }
}

impl CheckedCast<i128> for u64 {
    type Error = Infallible;

    open spec fn err_is(e: Infallible, kind: NumCastError) -> bool {
        false
    }

    fn checked_cast(self) -> (r: Result<i128, Infallible>) {
        Ok(self as i128)
    }
}

impl CheckedCast<usize> for u64 {
    type Error = NumCastError;

    open spec fn err_is(e: NumCastError, kind: NumCastError) -> bool {
        e == kind
    }

    fn checked_cast(self) -> (r: Result<usize, NumCastError>) {
        if self > usize::MAX as u64 {
            return Err(NumCastError::Overflow);
        }
        Ok(self as usize)
    }
}

impl CheckedCast<isize> for u64 {
    type Error = NumCastError;

    open spec fn err_is(e: NumCastError, kind: NumCastError) -> bool {
        e == kind
    }

    fn checked_cast(self) -> (r: Result<isize, NumCastError>) {
        if self > isize::MAX as u64 {
            return Err(NumCastError::Overflow);
        }
        Ok(self as isize)
    }
}

// from u128
impl CheckedCast<u8> for u128 {
    type Error = NumCastError;

    open spec fn err_is(e: NumCastError, kind: NumCastError) -> bool {
        e == kind
    }

    fn checked_cast(self) -> (r: Result<u8, NumCastError>) {
        if self > u8::MAX as u128 {
            return Err(NumCastError::Overflow);
        }
        Ok(self as u8)
    }
}

impl CheckedCast<u16> for u128 {
    type Error = NumCastError;

    open spec fn err_is(e: NumCastError, kind: NumCastError) -> bool {
        e == kind
    }

    fn checked_cast(self) -> (r: Result<u16, NumCastError>) {
        if self > u16::MAX as u128 {
            return Err(NumCastError::Overflow);
        }
        Ok(self as u16)
    }
}

impl CheckedCast<u32> for u128 {
    type Error = NumCastError;

    open spec fn err_is(e: NumCastError, kind: NumCastError) -> bool {
        e == kind
    }

    fn checked_cast(self) -> (r: Result<u32, NumCastError>) {
        if self > u32::MAX as u128 {
            return Err(NumCastError::Overflow);
        }
        Ok(self as u32)
    }
}

impl CheckedCast<u64> for u128 {
    type Error = NumCastError;

    open spec fn err_is(e: NumCastError, kind: NumCastError) -> bool {
        e == kind
    }

    fn checked_cast(self) -> (r: Result<u64, NumCastError>) {
        if self > u64::MAX as u128 {
            return Err(NumCastError::Overflow);
        }
        Ok(self as u64)
    }
}

impl CheckedCast<u128> for u128 {
    type Error = Infallible;

    open spec fn err_is(e: Infallible, kind: NumCastError) -> bool {
        false
    }

    fn checked_cast(self) -> (r: Result<u128, Infallible>) {
        Ok(self)
    }
}

impl CheckedCast<i8> for u128 {
    type Error = NumCastError;

    open spec fn err_is(e: NumCastError, kind: NumCastError) -> bool {
        e == kind
    }

    fn checked_cast(self) -> (r: Result<i8, NumCastError>) {
        if self > i8::MAX as u128 {
            return Err(NumCastError::Overflow);
        }
        Ok(self as i8)
    }
}

impl CheckedCast<i16> for u128 {
    type Error = NumCastError;

    open spec fn err_is(e: NumCastError, kind: NumCastError) -> bool {
        e == kind
    }

    fn checked_cast(self) -> (r: Result<i16, NumCastError>) {
        if self > i16::MAX as u128 {
            return Err(NumCastError::Overflow);
        }
        Ok(self as i16)
    }
}

impl CheckedCast<i32> for u128 {
    type Error = NumCastError;

    open spec fn err_is(e: NumCastError, kind: NumCastError) -> bool {
        e == kind
    }

    fn checked_cast(self) -> (r: Result<i32, NumCastError>) {
        if self > i32::MAX as u128 {
            return Err(NumCastError::Overflow);
        }
        Ok(self as i32)
    }
}

impl CheckedCast<i64> for u128 {
    type Error = NumCastError;

    open spec fn err_is(e: NumCastError, kind: NumCastError) -> bool {
        e == kind
    }

    fn checked_cast(self) -> (r: Result<i64, NumCastError>) {
        if self > i64::MAX as u128 {
            return Err(NumCastError::Overflow);
        }
        Ok(self as i64)
    }
}

impl CheckedCast<i128> for u128 {
    type Error = NumCastError;

    open spec fn err_is(e: NumCastError, kind: NumCastError) -> bool {
        e == kind
    }

    fn checked_cast(self) -> (r: Result<i128, NumCastError>) {
        if self > i128::MAX as u128 {
            return Err(NumCastError::Overflow);
        }
        Ok(self as i128)
    }
}

impl CheckedCast<usize> for u128 {
    type Error = NumCastError;

    open spec fn err_is(e: NumCastError, kind: NumCastError) -> bool {
        e == kind
    }

    fn checked_cast(self) -> (r: Result<usize, NumCastError>) {
        if self > usize::MAX as u128 {
            return Err(NumCastError::Overflow);
        }
        Ok(self as usize)
    }
}

impl CheckedCast<isize> for u128 {
    type Error = NumCastError;

    open spec fn err_is(e: NumCastError, kind: NumCastError) -> bool {
        e == kind
    }

    fn checked_cast(self) -> (r: Result<isize, NumCastError>) {
        if self > isize::MAX as u128 {
            return Err(NumCastError::Overflow);
        }
        Ok(self as isize)
    }
}

// from i8
impl CheckedCast<u8> for i8 {
    type Error = NumCastError;

    open spec fn err_is(e: NumCastError, kind: NumCastError) -> bool {
        e == kind
    }

    fn checked_cast(self) -> (r: Result<u8, NumCastError>) {
        if self < u8::MIN as i8 {
            return Err(NumCastError::Underflow);
        }
        Ok(self as u8)
    }
}

impl CheckedCast<u16> for i8 {
    type Error = NumCastError;

    open spec fn err_is(e: NumCastError, kind: NumCastError) -> bool {
        e == kind
    }

    fn checked_cast(self) -> (r: Result<u16, NumCastError>) {
        if self < u16::MIN as i8 {
            return Err(NumCastError::Underflow);
        }
        Ok(self as u16)
    }
}

impl CheckedCast<u32> for i8 {
    type Error = NumCastError;

    open spec fn err_is(e: NumCastError, kind: NumCastError) -> bool {
        e == kind
    }

    fn checked_cast(self) -> (r: Result<u32, NumCastError>) {
        if self < u32::MIN as i8 {
            return Err(NumCastError::Underflow);
        }
        Ok(self as u32)
    }
}

impl CheckedCast<u64> for i8 {
    type Error = NumCastError;

    open spec fn err_is(e: NumCastError, kind: NumCastError) -> bool {
        e == kind
    }

    fn checked_cast(self) -> (r: Result<u64, NumCastError>) {
        if self < u64::MIN as i8 {
            return Err(NumCastError::Underflow);
        }
        Ok(self as u64)
    }
}

impl CheckedCast<u128> for i8 {
    type Error = NumCastError;

    open spec fn err_is(e: NumCastError, kind: NumCastError) -> bool {
        e == kind
    }

    fn checked_cast(self) -> (r: Result<u128, NumCastError>) {
        if self < u128::MIN as i8 {
            return Err(NumCastError::Underflow);
        }
        Ok(self as u128)
    }
}

impl CheckedCast<i8> for i8 {
    type Error = Infallible;

    open spec fn err_is(e: Infallible, kind: NumCastError) -> bool {
        false
    }

    fn checked_cast(self) -> (r: Result<i8, Infallible>) {
        Ok(self)
    }
}

impl CheckedCast<i16> for i8 {
    type Error = Infallible;

    open spec fn err_is(e: Infallible, kind: NumCastError) -> bool {
        false
    }

    fn checked_cast(self) -> (r: Result<i16, Infallible>) {
        Ok(self as i16)
    }
}

impl CheckedCast<i32> for i8 {
    type Error = Infallible;

    open spec fn err_is(e: Infallible, kind: NumCastError) -> bool {
        false
    }

    fn checked_cast(self) -> (r: Result<i32, Infallible>) {
        Ok(self as i32)
    }
}

impl CheckedCast<i64> for i8 {
    type Error = Infallible;

    open spec fn err_is(e: Infallible, kind: NumCastError) -> bool {
        false
    }

    fn checked_cast(self) -> (r: Result<i64, Infallible>) {
        Ok(self as i64)
    }
}

impl CheckedCast<i128> for i8 {
    type Error = Infallible;

    open spec fn err_is(e: Infallible, kind: NumCastError) -> bool {
        false
    }

    fn checked_cast(self) -> (r: Result<i128, Infallible>) {
        Ok(self as i128)
    }
}

impl CheckedCast<usize> for i8 {
    type Error = NumCastError;

    open spec fn err_is(e: NumCastError, kind: NumCastError) -> bool {
        e == kind
    }

    fn checked_cast(self) -> (r: Result<usize, NumCastError>) {
        if self < usize::MIN as i8 {
            return Err(NumCastError::Underflow);
        }
        Ok(self as usize)
    }
}

impl CheckedCast<isize> for i8 {
    type Error = Infallible;

    open spec fn err_is(e: Infallible, kind: NumCastError) -> bool {
        false
    }

    fn checked_cast(self) -> (r: Result<isize, Infallible>) {
        Ok(self as isize)
    }
}

// from i16
impl CheckedCast<u8> for i16 {
    type Error = NumCastError;

    open spec fn err_is(e: NumCastError, kind: NumCastError) -> bool {
        e == kind
    }

    fn checked_cast(self) -> (r: Result<u8, NumCastError>) {
        if self > u8::MAX as i16 {
            return Err(NumCastError::Overflow);
        }
        if self < u8::MIN as i16 {
            return Err(NumCastError::Underflow);
        }
        Ok(self as u8)
    }
}

impl CheckedCast<u16> for i16 {
    type Error = NumCastError;

    open spec fn err_is(e: NumCastError, kind: NumCastError) -> bool {
        e == kind
    }

    fn checked_cast(self) -> (r: Result<u16, NumCastError>) {
        if self < u16::MIN as i16 {
            return Err(NumCastError::Underflow);
        }
        Ok(self as u16)
    }
}

impl CheckedCast<u32> for i16 {
    type Error = NumCastError;

    open spec fn err_is(e: NumCastError, kind: NumCastError) -> bool {
        e == kind
    }

    fn checked_cast(self) -> (r: Result<u32, NumCastError>) {
        if self < u32::MIN as i16 {
            return Err(NumCastError::Underflow);
        }
        Ok(self as u32)
    }
}

impl CheckedCast<u64> for i16 {
    type Error = NumCastError;

    open spec fn err_is(e: NumCastError, kind: NumCastError) -> bool {
        e == kind
    }

    fn checked_cast(self) -> (r: Result<u64, NumCastError>) {
        if self < u64::MIN as i16 {
            return Err(NumCastError::Underflow);
        }
        Ok(self as u64)
    }
}

impl CheckedCast<u128> for i16 {
    type Error = NumCastError;

    open spec fn err_is(e: NumCastError, kind: NumCastError) -> bool {
        e == kind
    }

    fn checked_cast(self) -> (r: Result<u128, NumCastError>) {
        if self < u128::MIN as i16 {
            return Err(NumCastError::Underflow);
        }
        Ok(self as u128)
    }
}

impl CheckedCast<i8> for i16 {
    type Error = NumCastError;

    open spec fn err_is(e: NumCastError, kind: NumCastError) -> bool {
        e == kind
    }

    fn checked_cast(self) -> (r: Result<i8, NumCastError>) {
        if self > i8::MAX as i16 {
            return Err(NumCastError::Overflow);
        }
        if self < i8::MIN as i16 {
            return Err(NumCastError::Underflow);
        }
        Ok(self as i8)
    }
}

impl CheckedCast<i16> for i16 {
    type Error = Infallible;

    open spec fn err_is(e: Infallible, kind: NumCastError) -> bool {
        false
    }

    fn checked_cast(self) -> (r: Result<i16, Infallible>) {
        Ok(self)
    }
}

impl CheckedCast<i32> for i16 {
    type Error = Infallible;

    open spec fn err_is(e: Infallible, kind: NumCastError) -> bool {
        false
    }

    fn checked_cast(self) -> (r: Result<i32, Infallible>) {
        Ok(self as i32)
    }
}

impl CheckedCast<i64> for i16 {
    type Error = Infallible;

    open spec fn err_is(e: Infallible, kind: NumCastError) -> bool {
        false
    }

    fn checked_cast(self) -> (r: Result<i64, Infallible>) {
        Ok(self as i64)
    }
}

impl CheckedCast<i128> for i16 {
    type Error = Infallible;

    open spec fn err_is(e: Infallible, kind: NumCastError) -> bool {
        false
    }

    fn checked_cast(self) -> (r: Result<i128, Infallible>) {
        Ok(self as i128)
    }
}

impl CheckedCast<usize> for i16 {
    type Error = NumCastError;

    open spec fn err_is(e: NumCastError, kind: NumCastError) -> bool {
        e == kind
    }

    fn checked_cast(self) -> (r: Result<usize, NumCastError>) {
        if self < usize::MIN as i16 {
            return Err(NumCastError::Underflow);
        }
        Ok(self as usize)
    }
}

impl CheckedCast<isize> for i16 {
    type Error = Infallible;

    open spec fn err_is(e: Infallible, kind: NumCastError) -> bool {
        false
    }

    fn checked_cast(self) -> (r: Result<isize, Infallible>) {
        Ok(self as isize)
    }
}

// from i32
impl CheckedCast<u8> for i32 {
    type Error = NumCastError;

    open spec fn err_is(e: NumCastError, kind: NumCastError) -> bool {
        e == kind
    }

    fn checked_cast(self) -> (r: Result<u8, NumCastError>) {
        if self > u8::MAX as i32 {
            return Err(NumCastError::Overflow);
        }
        if self < u8::MIN as i32 {
            return Err(NumCastError::Underflow);
        }
        Ok(self as u8)
    }
}

impl CheckedCast<u16> for i32 {
    type Error = NumCastError;

    open spec fn err_is(e: NumCastError, kind: NumCastError) -> bool {
        e == kind
    }

    fn checked_cast(self) -> (r: Result<u16, NumCastError>) {
        if self > u16::MAX as i32 {
            return Err(NumCastError::Overflow);
        }
        if self < u16::MIN as i32 {
            return Err(NumCastError::Underflow);
        }
        Ok(self as u16)
    }
}

impl CheckedCast<u32> for i32 {
    type Error = NumCastError;

    open spec fn err_is(e: NumCastError, kind: NumCastError) -> bool {
        e == kind
    }

    fn checked_cast(self) -> (r: Result<u32, NumCastError>) {
        if self < u32::MIN as i32 {
            return Err(NumCastError::Underflow);
        }
        Ok(self as u32)
    }
}

impl CheckedCast<u64> for i32 {
    type Error = NumCastError;

    open spec fn err_is(e: NumCastError, kind: NumCastError) -> bool {
        e == kind
    }

    fn checked_cast(self) -> (r: Result<u64, NumCastError>) {
        if self < u64::MIN as i32 {
            return Err(NumCastError::Underflow);
        }
        Ok(self as u64)
    }
}

impl CheckedCast<u128> for i32 {
    type Error = NumCastError;

    open spec fn err_is(e: NumCastError, kind: NumCastError) -> bool {
        e == kind
    }

    fn checked_cast(self) -> (r: Result<u128, NumCastError>) {
        if self < u128::MIN as i32 {
            return Err(NumCastError::Underflow);
        }
        Ok(self as u128)
    }
}

impl CheckedCast<i8> for i32 {
    type Error = NumCastError;

    open spec fn err_is(e: NumCastError, kind: NumCastError) -> bool {
        e == kind
    }

    fn checked_cast(self) -> (r: Result<i8, NumCastError>) {
        if self > i8::MAX as i32 {
            return Err(NumCastError::Overflow);
        }
        if self < i8::MIN as i32 {
            return Err(NumCastError::Underflow);
        }
        Ok(self as i8)
    }
}

impl CheckedCast<i16> for i32 {
    type Error = NumCastError;

    open spec fn err_is(e: NumCastError, kind: NumCastError) -> bool {
        e == kind
    }

    fn checked_cast(self) -> (r: Result<i16, NumCastError>) {
        if self > i16::MAX as i32 {
            return Err(NumCastError::Overflow);
        }
        if self < i16::MIN as i32 {
            return Err(NumCastError::Underflow);
        }
        Ok(self as i16)
    }
}

impl CheckedCast<i32> for i32 {
    type Error = Infallible;

    open spec fn err_is(e: Infallible, kind: NumCastError) -> bool {
        false
    }

    fn checked_cast(self) -> (r: Result<i32, Infallible>) {
        Ok(self)
    }
}

impl CheckedCast<i64> for i32 {
    type Error = Infallible;

    open spec fn err_is(e: Infallible, kind: NumCastError) -> bool {
        false
    }

    fn checked_cast(self) -> (r: Result<i64, Infallible>) {
        Ok(self as i64)
    }
}

impl CheckedCast<i128> for i32 {
    type Error = Infallible;

    open spec fn err_is(e: Infallible, kind: NumCastError) -> bool {
        false
    }

    fn checked_cast(self) -> (r: Result<i128, Infallible>) {
        Ok(self as i128)
    }
}

impl CheckedCast<usize> for i32 {
    type Error = NumCastError;

    open spec fn err_is(e: NumCastError, kind: NumCastError) -> bool {
        e == kind
    }

    fn checked_cast(self) -> (r: Result<usize, NumCastError>) {
        if self < usize::MIN as i32 {
            return Err(NumCastError::Underflow);
        }
        Ok(self as usize)
    }
}

impl CheckedCast<isize> for i32 {
    type Error = NumCastError;

    open spec fn err_is(e: NumCastError, kind: NumCastError) -> bool {
        e == kind
    }

    fn checked_cast(self) -> (r: Result<isize, NumCastError>) {
        Ok(self as isize)
    }
}

// from i64
impl CheckedCast<u8> for i64 {
    type Error = NumCastError;

    open spec fn err_is(e: NumCastError, kind: NumCastError) -> bool {
        e == kind
    }

    fn checked_cast(self) -> (r: Result<u8, NumCastError>) {
        if self > u8::MAX as i64 {
            return Err(NumCastError::Overflow);
        }
        if self < u8::MIN as i64 {
            return Err(NumCastError::Underflow);
        }
        Ok(self as u8)
    }
}

impl CheckedCast<u16> for i64 {
    type Error = NumCastError;

    open spec fn err_is(e: NumCastError, kind: NumCastError) -> bool {
        e == kind
    }

    fn checked_cast(self) -> (r: Result<u16, NumCastError>) {
        if self > u16::MAX as i64 {
            return Err(NumCastError::Overflow);
        }
        if self < u16::MIN as i64 {
            return Err(NumCastError::Underflow);
        }
        Ok(self as u16)
    }
}

impl CheckedCast<u32> for i64 {
    type Error = NumCastError;

    open spec fn err_is(e: NumCastError, kind: NumCastError) -> bool {
        e == kind
    }

    fn checked_cast(self) -> (r: Result<u32, NumCastError>) {
        if self > u32::MAX as i64 {
            return Err(NumCastError::Overflow);
        }
        if self < u32::MIN as i64 {
            return Err(NumCastError::Underflow);
        }
        Ok(self as u32)
    }
}

impl CheckedCast<u64> for i64 {
    type Error = NumCastError;

    open spec fn err_is(e: NumCastError, kind: NumCastError) -> bool {
        e == kind
    }

    fn checked_cast(self) -> (r: Result<u64, NumCastError>) {
        if self < u64::MIN as i64 {
            return Err(NumCastError::Underflow);
        }
        Ok(self as u64)
    }
}

impl CheckedCast<u128> for i64 {
    type Error = NumCastError;

    open spec fn err_is(e: NumCastError, kind: NumCastError) -> bool {
        e == kind
    }

    fn checked_cast(self) -> (r: Result<u128, NumCastError>) {
        if self < u128::MIN as i64 {
            return Err(NumCastError::Underflow);
        }
        Ok(self as u128)
    }
}

impl CheckedCast<i8> for i64 {
    type Error = NumCastError;

    open spec fn err_is(e: NumCastError, kind: NumCastError) -> bool {
        e == kind
    }

    fn checked_cast(self) -> (r: Result<i8, NumCastError>) {
        if self > i8::MAX as i64 {
            return Err(NumCastError::Overflow);
        }
        if self < i8::MIN as i64 {
            return Err(NumCastError::Underflow);
        }
        Ok(self as i8)
    }
}

impl CheckedCast<i16> for i64 {
    type Error = NumCastError;

    open spec fn err_is(e: NumCastError, kind: NumCastError) -> bool {
        e == kind
    }

    fn checked_cast(self) -> (r: Result<i16, NumCastError>) {
        if self > i16::MAX as i64 {
            return Err(NumCastError::Overflow);
        }
        if self < i16::MIN as i64 {
            return Err(NumCastError::Underflow);
        }
        Ok(self as i16)
    }
}

impl CheckedCast<i32> for i64 {
    type Error = NumCastError;

    open spec fn err_is(e: NumCastError, kind: NumCastError) -> bool {
        e == kind
    }

    fn checked_cast(self) -> (r: Result<i32, NumCastError>) {
        if self > i32::MAX as i64 {
            return Err(NumCastError::Overflow);
        }
        if self < i32::MIN as i64 {
            return Err(NumCastError::Underflow);
        }
        Ok(self as i32)
    }
}

impl CheckedCast<i64> for i64 {
    type Error = Infallible;

    open spec fn err_is(e: Infallible, kind: NumCastError) -> bool {
        false
    }

    fn checked_cast(self) -> (r: Result<i64, Infallible>) {
        Ok(self)
    }
}

impl CheckedCast<i128> for i64 {
    type Error = Infallible;

    open spec fn err_is(e: Infallible, kind: NumCastError) -> bool {
        false
    }

    fn checked_cast(self) -> (r: Result<i128, Infallible>) {
        Ok(self as i128)
    }
}

impl CheckedCast<usize> for i64 {
    type Error = NumCastError;

    open spec fn err_is(e: NumCastError, kind: NumCastError) -> bool {
        e == kind
    }

    fn checked_cast(self) -> (r: Result<usize, NumCastError>) {
        if self >= 0 && self as u64 > usize::MAX as u64 {
            return Err(NumCastError::Overflow);
        }
        if self < 0 {
            return Err(NumCastError::Underflow);
        }
        Ok(self as usize)
    }
}

impl CheckedCast<isize> for i64 {
    type Error = NumCastError;

    open spec fn err_is(e: NumCastError, kind: NumCastError) -> bool {
        e == kind
    }

    fn checked_cast(self) -> (r: Result<isize, NumCastError>) {
        if self > isize::MAX as i64 {
            return Err(NumCastError::Overflow);
        }
        if self < isize::MIN as i64 {
            return Err(NumCastError::Underflow);
        }
        Ok(self as isize)
    }
}

// from i128
impl CheckedCast<u8> for i128 {
    type Error = NumCastError;

    open spec fn err_is(e: NumCastError, kind: NumCastError) -> bool {
        e == kind
    }

    fn checked_cast(self) -> (r: Result<u8, NumCastError>) {
        if self > u8::MAX as i128 {
            return Err(NumCastError::Overflow);
        }
        if self < u8::MIN as i128 {
            return Err(NumCastError::Underflow);
        }
        Ok(self as u8)
    }
}

impl CheckedCast<u16> for i128 {
    type Error = NumCastError;

    open spec fn err_is(e: NumCastError, kind: NumCastError) -> bool {
        e == kind
    }

    fn checked_cast(self) -> (r: Result<u16, NumCastError>) {
        if self > u16::MAX as i128 {
            return Err(NumCastError::Overflow);
        }
        if self < u16::MIN as i128 {
            return Err(NumCastError::Underflow);
        }
        Ok(self as u16)
    }
}

impl CheckedCast<u32> for i128 {
    type Error = NumCastError;

    open spec fn err_is(e: NumCastError, kind: NumCastError) -> bool {
        e == kind
    }

    fn checked_cast(self) -> (r: Result<u32, NumCastError>) {
        if self > u32::MAX as i128 {
            return Err(NumCastError::Overflow);
        }
        if self < u32::MIN as i128 {
            return Err(NumCastError::Underflow);
        }
        Ok(self as u32)
    }
}

impl CheckedCast<u64> for i128 {
    type Error = NumCastError;

    open spec fn err_is(e: NumCastError, kind: NumCastError) -> bool {
        e == kind
    }

    fn checked_cast(self) -> (r: Result<u64, NumCastError>) {
        if self > u64::MAX as i128 {
            return Err(NumCastError::Overflow);
        }
        if self < u64::MIN as i128 {
            return Err(NumCastError::Underflow);
        }
        Ok(self as u64)
    }
}

impl CheckedCast<u128> for i128 {
    type Error = NumCastError;

    open spec fn err_is(e: NumCastError, kind: NumCastError) -> bool {
        e == kind
    }

    fn checked_cast(self) -> (r: Result<u128, NumCastError>) {
        if self < u128::MIN as i128 {
            return Err(NumCastError::Underflow);
        }
        Ok(self as u128)
    }
}

impl CheckedCast<i8> for i128 {
    type Error = NumCastError;

    open spec fn err_is(e: NumCastError, kind: NumCastError) -> bool {
        e == kind
    }

    fn checked_cast(self) -> (r: Result<i8, NumCastError>) {
        if self > i8::MAX as i128 {
            return Err(NumCastError::Overflow);
        }
        if self < i8::MIN as i128 {
            return Err(NumCastError::Underflow);
        }
        Ok(self as i8)
    }
}

impl CheckedCast<i16> for i128 {
    type Error = NumCastError;

    open spec fn err_is(e: NumCastError, kind: NumCastError) -> bool {
        e == kind
    }

    fn checked_cast(self) -> (r: Result<i16, NumCastError>) {
        if self > i16::MAX as i128 {
            return Err(NumCastError::Overflow);
        }
        if self < i16::MIN as i128 {
            return Err(NumCastError::Underflow);
        }
        Ok(self as i16)
    }
}

impl CheckedCast<i32> for i128 {
    type Error = NumCastError;

    open spec fn err_is(e: NumCastError, kind: NumCastError) -> bool {
        e == kind
    }

    fn checked_cast(self) -> (r: Result<i32, NumCastError>) {
        if self > i32::MAX as i128 {
            return Err(NumCastError::Overflow);
        }
        if self < i32::MIN as i128 {
            return Err(NumCastError::Underflow);
        }
        Ok(self as i32)
    }
}

impl CheckedCast<i64> for i128 {
    type Error = NumCastError;

    open spec fn err_is(e: NumCastError, kind: NumCastError) -> bool {
        e == kind
    }

    fn checked_cast(self) -> (r: Result<i64, NumCastError>) {
        if self > i64::MAX as i128 {
            return Err(NumCastError::Overflow);
        }
        if self < i64::MIN as i128 {
            return Err(NumCastError::Underflow);
        }
        Ok(self as i64)
    }
}

impl CheckedCast<i128> for i128 {
    type Error = Infallible;

    open spec fn err_is(e: Infallible, kind: NumCastError) -> bool {
        false
    }

    fn checked_cast(self) -> (r: Result<i128, Infallible>) {
        Ok(self)
    }
}

impl CheckedCast<usize> for i128 {
    type Error = NumCastError;

    open spec fn err_is(e: NumCastError, kind: NumCastError) -> bool {
        e == kind
    }

    fn checked_cast(self) -> (r: Result<usize, NumCastError>) {
        if self > usize::MAX as i128 {
            return Err(NumCastError::Overflow);
        }
        if self < usize::MIN as i128 {
            return Err(NumCastError::Underflow);
        }
        Ok(self as usize)
    }
}

impl CheckedCast<isize> for i128 {
    type Error = NumCastError;

    open spec fn err_is(e: NumCastError, kind: NumCastError) -> bool {
        e == kind
    }

    fn checked_cast(self) -> (r: Result<isize, NumCastError>) {
        if self > isize::MAX as i128 {
            return Err(NumCastError::Overflow);
        }
        if self < isize::MIN as i128 {
            return Err(NumCastError::Underflow);
        }
        Ok(self as isize)
    }
}

// from usize
impl CheckedCast<u8> for usize {
    type Error = NumCastError;

    open spec fn err_is(e: NumCastError, kind: NumCastError) -> bool {
        e == kind
    }

    fn checked_cast(self) -> (r: Result<u8, NumCastError>) {
        if self > u8::MAX as usize {
            return Err(NumCastError::Overflow);
        }
        Ok(self as u8)
    }
}

impl CheckedCast<u16> for usize {
    type Error = NumCastError;

    open spec fn err_is(e: NumCastError, kind: NumCastError) -> bool {
        e == kind
    }

    fn checked_cast(self) -> (r: Result<u16, NumCastError>) {
        if self > u16::MAX as usize {
            return Err(NumCastError::Overflow);
        }
        Ok(self as u16)
    }
}

impl CheckedCast<u32> for usize {
    type Error = NumCastError;

    open spec fn err_is(e: NumCastError, kind: NumCastError) -> bool {
        e == kind
    }

    fn checked_cast(self) -> (r: Result<u32, NumCastError>) {
        if self > u32::MAX as usize {
            return Err(NumCastError::Overflow);
        }
        Ok(self as u32)
    }
}

impl CheckedCast<u64> for usize {
    type Error = NumCastError;

    open spec fn err_is(e: NumCastError, kind: NumCastError) -> bool {
        e == kind
    }

    fn checked_cast(self) -> (r: Result<u64, NumCastError>) {
        Ok(self as u64)
    }
}

impl CheckedCast<u128> for usize {
    type Error = NumCastError;

    open spec fn err_is(e: NumCastError, kind: NumCastError) -> bool {
        e == kind
    }

    fn checked_cast(self) -> (r: Result<u128, NumCastError>) {
        Ok(self as u128)
    }
}

impl CheckedCast<i8> for usize {
    type Error = NumCastError;

    open spec fn err_is(e: NumCastError, kind: NumCastError) -> bool {
        e == kind
    }

    fn checked_cast(self) -> (r: Result<i8, NumCastError>) {
        if self > i8::MAX as usize {
            return Err(NumCastError::Overflow);
        }
        Ok(self as i8)
    }
}

impl CheckedCast<i16> for usize {
    type Error = NumCastError;

    open spec fn err_is(e: NumCastError, kind: NumCastError) -> bool {
        e == kind
    }

    fn checked_cast(self) -> (r: Result<i16, NumCastError>) {
        if self > i16::MAX as usize {
            return Err(NumCastError::Overflow);
        }
        Ok(self as i16)
    }
}

impl CheckedCast<i32> for usize {
    type Error = NumCastError;

    open spec fn err_is(e: NumCastError, kind: NumCastError) -> bool {
        e == kind
    }

    fn checked_cast(self) -> (r: Result<i32, NumCastError>) {
        if self > i32::MAX as usize {
            return Err(NumCastError::Overflow);
        }
        Ok(self as i32)
    }
}

impl CheckedCast<i64> for usize {
    type Error = NumCastError;

    open spec fn err_is(e: NumCastError, kind: NumCastError) -> bool {
        e == kind
    }

    fn checked_cast(self) -> (r: Result<i64, NumCastError>) {
        if self as u64 > i64::MAX as u64 {
            return Err(NumCastError::Overflow);
        }
        Ok(self as i64)
    }
}

impl CheckedCast<i128> for usize {
    type Error = NumCastError;

    open spec fn err_is(e: NumCastError, kind: NumCastError) -> bool {
        e == kind
    }

    fn checked_cast(self) -> (r: Result<i128, NumCastError>) {
        Ok(self as i128)
    }
}

impl CheckedCast<usize> for usize {
    type Error = Infallible;

    open spec fn err_is(e: Infallible, kind: NumCastError) -> bool {
        false
    }

    fn checked_cast(self) -> (r: Result<usize, Infallible>) {
        Ok(self)
    }
}

impl CheckedCast<isize> for usize {
    type Error = NumCastError;

    open spec fn err_is(e: NumCastError, kind: NumCastError) -> bool {
        e == kind
    }

    fn checked_cast(self) -> (r: Result<isize, NumCastError>) {
        if self > isize::MAX as usize {
            return Err(NumCastError::Overflow);
        }
        Ok(self as isize)
    }
}

// from isize
impl CheckedCast<u8> for isize {
    type Error = NumCastError;

    open spec fn err_is(e: NumCastError, kind: NumCastError) -> bool {
        e == kind
    }

    fn checked_cast(self) -> (r: Result<u8, NumCastError>) {
        if self > u8::MAX as isize {
            return Err(NumCastError::Overflow);
        }
        if self < u8::MIN as isize {
            return Err(NumCastError::Underflow);
        }
        Ok(self as u8)
    }
}

impl CheckedCast<u16> for isize {
    type Error = NumCastError;

    open spec fn err_is(e: NumCastError, kind: NumCastError) -> bool {
        e == kind
    }

    fn checked_cast(self) -> (r: Result<u16, NumCastError>) {
        if self > u16::MAX as isize {
            return Err(NumCastError::Overflow);
        }
        if self < u16::MIN as isize {
            return Err(NumCastError::Underflow);
        }
        Ok(self as u16)
    }
}

impl CheckedCast<u32> for isize {
    type Error = NumCastError;

    open spec fn err_is(e: NumCastError, kind: NumCastError) -> bool {
        e == kind
    }

    fn checked_cast(self) -> (r: Result<u32, NumCastError>) {
        if self >= 0 && self as usize > u32::MAX as usize {
            return Err(NumCastError::Overflow);
        }
        if self < 0 {
            return Err(NumCastError::Underflow);
        }
        Ok(self as u32)
    }
}

impl CheckedCast<u64> for isize {
    type Error = NumCastError;

    open spec fn err_is(e: NumCastError, kind: NumCastError) -> bool {
        e == kind
    }

    fn checked_cast(self) -> (r: Result<u64, NumCastError>) {
        if self < u64::MIN as isize {
            return Err(NumCastError::Underflow);
        }
        Ok(self as u64)
    }
}

impl CheckedCast<u128> for isize {
    type Error = NumCastError;

    open spec fn err_is(e: NumCastError, kind: NumCastError) -> bool {
        e == kind
    }

    fn checked_cast(self) -> (r: Result<u128, NumCastError>) {
        if self < u128::MIN as isize {
            return Err(NumCastError::Underflow);
        }
        Ok(self as u128)
    }
}

impl CheckedCast<i8> for isize {
    type Error = NumCastError;

    open spec fn err_is(e: NumCastError, kind: NumCastError) -> bool {
        e == kind
    }

    fn checked_cast(self) -> (r: Result<i8, NumCastError>) {
        if self > i8::MAX as isize {
            return Err(NumCastError::Overflow);
        }
        if self < i8::MIN as isize {
            return Err(NumCastError::Underflow);
        }
        Ok(self as i8)
    }
}

impl CheckedCast<i16> for isize {
    type Error = NumCastError;

    open spec fn err_is(e: NumCastError, kind: NumCastError) -> bool {
        e == kind
    }

    fn checked_cast(self) -> (r: Result<i16, NumCastError>) {
        if self > i16::MAX as isize {
            return Err(NumCastError::Overflow);
        }
        if self < i16::MIN as isize {
            return Err(NumCastError::Underflow);
        }
        Ok(self as i16)
    }
}

impl CheckedCast<i32> for isize {
    type Error = NumCastError;

    open spec fn err_is(e: NumCastError, kind: NumCastError) -> bool {
        e == kind
    }

    fn checked_cast(self) -> (r: Result<i32, NumCastError>) {
        if self > i32::MAX as isize {
            return Err(NumCastError::Overflow);
        }
        if self < i32::MIN as isize {
            return Err(NumCastError::Underflow);
        }
        Ok(self as i32)
    }
}

impl CheckedCast<i64> for isize {
    type Error = NumCastError;

    open spec fn err_is(e: NumCastError, kind: NumCastError) -> bool {
        e == kind
    }

    fn checked_cast(self) -> (r: Result<i64, NumCastError>) {
        Ok(self as i64)
    }
}

impl CheckedCast<i128> for isize {
    type Error = NumCastError;

    open spec fn err_is(e: NumCastError, kind: NumCastError) -> bool {
        e == kind
    }

    fn checked_cast(self) -> (r: Result<i128, NumCastError>) {
        Ok(self as i128)
    }
}

impl CheckedCast<usize> for isize {
    type Error = NumCastError;

    open spec fn err_is(e: NumCastError, kind: NumCastError) -> bool {
        e == kind
    }

    fn checked_cast(self) -> (r: Result<usize, NumCastError>) {
        if self < usize::MIN as isize {
            return Err(NumCastError::Underflow);
        }
        Ok(self as usize)
    }
}

impl CheckedCast<isize> for isize {
    type Error = Infallible;

    open spec fn err_is(e: Infallible, kind: NumCastError) -> bool {
        false
    }

    fn checked_cast(self) -> (r: Result<isize, Infallible>) {
        Ok(self)
    }
}

} // verus!
