//! The conversion policies: one trait per policy, a free function per trait
//! that names the destination type at the call site, the error
//! classification, and the model of a floating-point source used by the
//! checked policy.

use crate::model::{wrap_to, IntBounds};
use vstd::prelude::*;

verus! {

/// Converts with the checked policy: the value, or a classified error.
pub fn checked_cast<T, U>(src: T) -> (r: Result<U, T::Error>) where
    T: CheckedCast<U>,
    U: IntBounds,

    ensures
        r is Ok <==> U::min_int() <= src.as_int() <= U::max_int(),
        r is Ok ==> r->Ok_0.as_int() == src.as_int(),
        src.as_int() > U::max_int() ==> r is Err && T::err_is(r->Err_0, NumCastError::Overflow),
        src.as_int() < U::min_int() ==> r is Err && T::err_is(r->Err_0, NumCastError::Underflow),
{
    src.checked_cast()
}

/// Converts with the wrapping policy: a same-width reinterpretation.
pub fn wrapping_cast<T, U>(src: T) -> (r: U) where
    T: WrappingCast<U>,
    U: IntBounds,

    ensures
        r.as_int() == wrap_to(src.as_int(), U::min_int(), U::max_int()),
        U::max_int() - U::min_int() == T::max_int() - T::min_int(),
{
    src.wrapping_cast()
}

/// Converts with the extending policy: a lossless widening.
pub fn extending_cast<T, U>(src: T) -> (r: U) where
    T: ExtendingCast<U>,
    U: IntBounds,

    ensures
        r.as_int() == src.as_int(),
        U::min_int() <= T::min_int() && T::max_int() < U::max_int(),
{
    src.extending_cast()
}

/// Converts with the truncating policy: an explicit lossy narrowing.
pub fn truncating_cast<T, U>(src: T) -> (r: U) where
    T: TruncatingCast<U>,
    U: IntBounds,

    ensures
        r.as_int() == wrap_to(src.as_int(), U::min_int(), U::max_int()),
        T::min_int() <= U::min_int() && U::max_int() < T::max_int(),
{
    src.truncating_cast()
}

/// The checked conversion policy. Succeeds exactly when the destination can
/// represent the source value; a rejected value is classified as one error,
/// an overflow reported before an underflow.
///
/// For a pair whose destination range contains the whole source range the
/// error type is uninhabited and the conversion cannot fail.
pub trait CheckedCast<T>: IntBounds + Sized where T: IntBounds {
    type Error;

    /// Whether the error value `e` carries the classification `kind`. An
    /// uninhabited error type carries no classification.
    spec fn err_is(e: Self::Error, kind: NumCastError) -> bool;

    fn checked_cast(self) -> (r: Result<T, Self::Error>)
        ensures
            r is Ok <==> T::min_int() <= self.as_int() <= T::max_int(),
            r is Ok ==> r->Ok_0.as_int() == self.as_int(),
            self.as_int() > T::max_int() ==> r is Err && Self::err_is(
                r->Err_0,
                NumCastError::Overflow,
            ),
            self.as_int() < T::min_int() ==> r is Err && Self::err_is(
                r->Err_0,
                NumCastError::Underflow,
            ),
    ;
}

/// The wrapping conversion policy: reinterpret the bit pattern of a value in
/// the same-width type of the other signedness. The result is the source
/// value reduced into the destination range; source and destination ranges
/// have one size.
pub trait WrappingCast<T>: IntBounds + Sized where T: IntBounds {
    fn wrapping_cast(self) -> (r: T)
        ensures
            r.as_int() == wrap_to(self.as_int(), T::min_int(), T::max_int()),
            T::max_int() - T::min_int() == Self::max_int() - Self::min_int(),
    ;
}

/// The extending conversion policy: widen to a strictly larger
/// same-signedness type. The value is preserved exactly.
pub trait ExtendingCast<T>: IntBounds + Sized where T: IntBounds {
    fn extending_cast(self) -> (r: T)
        ensures
            r.as_int() == self.as_int(),
            T::min_int() <= Self::min_int() && Self::max_int() < T::max_int(),
    ;
}

/// The truncating conversion policy: narrow to a strictly smaller
/// same-signedness type by discarding high-order bits. The result is the
/// source value reduced into the destination range.
pub trait TruncatingCast<T>: IntBounds + Sized where T: IntBounds {
    fn truncating_cast(self) -> (r: T)
        ensures
            r.as_int() == wrap_to(self.as_int(), T::min_int(), T::max_int()),
            Self::min_int() <= T::min_int() && T::max_int() < Self::max_int(),
    ;
}

/// Why a checked conversion rejected its input. The classifications are
/// mutually exclusive; each names exactly one reason.
#[derive(Debug, Clone, Copy, PartialEq, Eq)]
pub enum NumCastError {
    /// The value exceeds the destination's maximum.
    Overflow,
    /// The value is below the destination's minimum.
    Underflow,
    /// The floating-point source is infinite and the destination cannot
    /// represent infinity.
    Infinite,
    /// The floating-point source is not a number.
    NaN,
    /// The floating-point source has a non-zero fractional part and the
    /// destination requires the exact value.
    Fractional,
}

impl NumCastError {
    /// A human-readable description of the classification.
    pub fn message(&self) -> (r: &'static str)
        ensures
            r == self.spec_message(),
    {
        match *self {
            NumCastError::Overflow => "Overflow during numeric conversion",
            NumCastError::Underflow => "Underflow during numeric conversion",
            NumCastError::Fractional => "Cannot store fractional value without loss",
            NumCastError::Infinite => "Cannot store infinite value in finite type",
            NumCastError::NaN => "Cannot store NaN in type which does not support it",
        }
    }

    /// The description returned by `message`.
    pub open spec fn spec_message(self) -> &'static str {
        match self {
            NumCastError::Overflow => "Overflow during numeric conversion",
            NumCastError::Underflow => "Underflow during numeric conversion",
            NumCastError::Fractional => "Cannot store fractional value without loss",
            NumCastError::Infinite => "Cannot store infinite value in finite type",
            NumCastError::NaN => "Cannot store NaN in type which does not support it",
        }
    }
}

/// A floating-point source value as the checked policy observes it: the
/// properties the bound tests read, as plain values. Building a
/// classification from a machine float is the caller's (unverified) step;
/// everything after it is verified against this type.
#[derive(Debug, Clone, Copy, PartialEq, Eq)]
pub enum FloatClass {
    /// Not a number.
    NaN,
    /// Positive or negative infinity.
    Infinite,
    /// Finite with a non-zero fractional part.
    Fractional,
    /// Finite and whole, carrying its exact value.
    Whole(i128),
    /// Finite and whole, above the value-carrying variant's range; larger
    /// than every integer destination here.
    AboveWholeRange,
    /// Finite and whole, below the value-carrying variant's range; smaller
    /// than every integer destination here.
    BelowWholeRange,
}

impl FloatClass {
    /// The checked conversion of a classified floating-point source into an
    /// integer destination with range `[lo, hi]`: not-a-number, infinite and
    /// fractional sources are rejected first, in that order, then the
    /// bounds, the upper one first.
    pub open spec fn spec_checked_int(self, lo: int, hi: int) -> Result<int, NumCastError> {
        match self {
            FloatClass::NaN => Err(NumCastError::NaN),
            FloatClass::Infinite => Err(NumCastError::Infinite),
            FloatClass::Fractional => Err(NumCastError::Fractional),
            FloatClass::Whole(v) => if v > hi {
                Err(NumCastError::Overflow)
            } else if v < lo {
                Err(NumCastError::Underflow)
            } else {
                Ok(v as int)
            },
            FloatClass::AboveWholeRange => Err(NumCastError::Overflow),
            FloatClass::BelowWholeRange => Err(NumCastError::Underflow),
        }
    }

    /// Checked conversion of the classified source to `u8`.
    pub fn checked_to_u8(self) -> (r: Result<u8, NumCastError>)
        ensures
            r is Ok <==> self.spec_checked_int(u8::MIN as int, u8::MAX as int) is Ok,
            r is Ok ==> r->Ok_0 as int == self.spec_checked_int(
                u8::MIN as int,
                u8::MAX as int,
            )->Ok_0,
            r is Err ==> r->Err_0 == self.spec_checked_int(
                u8::MIN as int,
                u8::MAX as int,
            )->Err_0,
    {
        match self {
            FloatClass::NaN => Err(NumCastError::NaN),
            FloatClass::Infinite => Err(NumCastError::Infinite),
            FloatClass::Fractional => Err(NumCastError::Fractional),
            FloatClass::Whole(v) => {
                if v > u8::MAX as i128 {
                    Err(NumCastError::Overflow)
                } else if v < u8::MIN as i128 {
                    Err(NumCastError::Underflow)
                } else {
                    Ok(v as u8)
                }
            },
            FloatClass::AboveWholeRange => Err(NumCastError::Overflow),
            FloatClass::BelowWholeRange => Err(NumCastError::Underflow),
        }
    }

    /// Checked conversion of the classified source to `u16`.
    pub fn checked_to_u16(self) -> (r: Result<u16, NumCastError>)
        ensures
            r is Ok <==> self.spec_checked_int(u16::MIN as int, u16::MAX as int) is Ok,
            r is Ok ==> r->Ok_0 as int == self.spec_checked_int(
                u16::MIN as int,
                u16::MAX as int,
            )->Ok_0,
            r is Err ==> r->Err_0 == self.spec_checked_int(
                u16::MIN as int,
                u16::MAX as int,
            )->Err_0,
    {
        match self {
            FloatClass::NaN => Err(NumCastError::NaN),
            FloatClass::Infinite => Err(NumCastError::Infinite),
            FloatClass::Fractional => Err(NumCastError::Fractional),
            FloatClass::Whole(v) => {
                if v > u16::MAX as i128 {
                    Err(NumCastError::Overflow)
                } else if v < u16::MIN as i128 {
                    Err(NumCastError::Underflow)
                } else {
                    Ok(v as u16)
                }
            },
            FloatClass::AboveWholeRange => Err(NumCastError::Overflow),
            FloatClass::BelowWholeRange => Err(NumCastError::Underflow),
        }
    }

    /// Checked conversion of the classified source to `i8`.
    pub fn checked_to_i8(self) -> (r: Result<i8, NumCastError>)
        ensures
            r is Ok <==> self.spec_checked_int(i8::MIN as int, i8::MAX as int) is Ok,
            r is Ok ==> r->Ok_0 as int == self.spec_checked_int(
                i8::MIN as int,
                i8::MAX as int,
            )->Ok_0,
            r is Err ==> r->Err_0 == self.spec_checked_int(
                i8::MIN as int,
                i8::MAX as int,
            )->Err_0,
    {
        match self {
            FloatClass::NaN => Err(NumCastError::NaN),
            FloatClass::Infinite => Err(NumCastError::Infinite),
            FloatClass::Fractional => Err(NumCastError::Fractional),
            FloatClass::Whole(v) => {
                if v > i8::MAX as i128 {
                    Err(NumCastError::Overflow)
                } else if v < i8::MIN as i128 {
                    Err(NumCastError::Underflow)
                } else {
                    Ok(v as i8)
                }
            },
            FloatClass::AboveWholeRange => Err(NumCastError::Overflow),
            FloatClass::BelowWholeRange => Err(NumCastError::Underflow),
        }
    }

    /// Checked conversion of the classified source to `i16`.
    pub fn checked_to_i16(self) -> (r: Result<i16, NumCastError>)
        ensures
            r is Ok <==> self.spec_checked_int(i16::MIN as int, i16::MAX as int) is Ok,
            r is Ok ==> r->Ok_0 as int == self.spec_checked_int(
                i16::MIN as int,
                i16::MAX as int,
            )->Ok_0,
            r is Err ==> r->Err_0 == self.spec_checked_int(
                i16::MIN as int,
                i16::MAX as int,
            )->Err_0,
    {
        match self {
            FloatClass::NaN => Err(NumCastError::NaN),
            FloatClass::Infinite => Err(NumCastError::Infinite),
            FloatClass::Fractional => Err(NumCastError::Fractional),
            FloatClass::Whole(v) => {
                if v > i16::MAX as i128 {
                    Err(NumCastError::Overflow)
                } else if v < i16::MIN as i128 {
                    Err(NumCastError::Underflow)
                } else {
                    Ok(v as i16)
                }
            },
            FloatClass::AboveWholeRange => Err(NumCastError::Overflow),
            FloatClass::BelowWholeRange => Err(NumCastError::Underflow),
        }
    }
}

} // verus!
