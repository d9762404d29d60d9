//! Explicit numeric conversions.
//!
//! Implicit narrowing casts silently truncate, wrap, or lose precision. This
//! crate replaces them with four explicitly named conversion policies, each
//! with a proved contract:
//!
//! - checked: validates representability and returns a classified error on
//!   failure, never a corrupted value;
//! - wrapping: same-width reinterpretation of the bit pattern under the
//!   destination's signedness, always succeeds;
//! - extending: lossless widening to a strictly larger same-signedness type,
//!   always succeeds and preserves the value;
//! - truncating: explicit narrowing that discards high-order bits, always
//!   succeeds, with the loss stated as reduction modulo the destination's
//!   range size.

pub mod checked_cast;
pub mod extending_cast;
pub mod model;
pub mod number;
pub mod truncating_cast;
pub mod wrapping_cast;
