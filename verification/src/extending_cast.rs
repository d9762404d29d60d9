//! The extending conversion matrix: every strictly widening
//! same-signedness pair. Each implementation is the native widening cast,
//! which preserves the value exactly.

use crate::model::IntBounds;
use crate::number::ExtendingCast;
use vstd::prelude::*;

verus! {

impl ExtendingCast<u16> for u8 {
    fn extending_cast(self) -> (r: u16) {
        self as u16
    }
}

impl ExtendingCast<u32> for u8 {
    fn extending_cast(self) -> (r: u32) {
        self as u32
    }
}

impl ExtendingCast<u64> for u8 {
    fn extending_cast(self) -> (r: u64) {
        self as u64
    }
}

impl ExtendingCast<u128> for u8 {
    fn extending_cast(self) -> (r: u128) {
        self as u128
    }
}

impl ExtendingCast<u32> for u16 {
    fn extending_cast(self) -> (r: u32) {
        self as u32
    }
}

impl ExtendingCast<u64> for u16 {
    fn extending_cast(self) -> (r: u64) {
        self as u64
    }
}

impl ExtendingCast<u128> for u16 {
    fn extending_cast(self) -> (r: u128) {
        self as u128
    }
}

impl ExtendingCast<u64> for u32 {
    fn extending_cast(self) -> (r: u64) {
        self as u64
    }
}

impl ExtendingCast<u128> for u32 {
    fn extending_cast(self) -> (r: u128) {
        self as u128
    }
}

impl ExtendingCast<u128> for u64 {
    fn extending_cast(self) -> (r: u128) {
        self as u128
    }
}

impl ExtendingCast<i16> for i8 {
    fn extending_cast(self) -> (r: i16) {
        self as i16
    }
}

impl ExtendingCast<i32> for i8 {
    fn extending_cast(self) -> (r: i32) {
        self as i32
    }
}

impl ExtendingCast<i64> for i8 {
    fn extending_cast(self) -> (r: i64) {
        self as i64
    }
}

impl ExtendingCast<i128> for i8 {
    fn extending_cast(self) -> (r: i128) {
        self as i128
    }
}

impl ExtendingCast<i32> for i16 {
    fn extending_cast(self) -> (r: i32) {
        self as i32
    }
}

impl ExtendingCast<i64> for i16 {
    fn extending_cast(self) -> (r: i64) {
        self as i64
    }
}

impl ExtendingCast<i128> for i16 {
    fn extending_cast(self) -> (r: i128) {
        self as i128
    }
}

impl ExtendingCast<i64> for i32 {
    fn extending_cast(self) -> (r: i64) {
        self as i64
    }
}

impl ExtendingCast<i128> for i32 {
    fn extending_cast(self) -> (r: i128) {
        self as i128
    }
}

impl ExtendingCast<i128> for i64 {
    fn extending_cast(self) -> (r: i128) {
        self as i128
    }
}

} // verus!
