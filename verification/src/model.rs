//! The mathematical model behind every conversion: each machine integer type
//! is described by its value as a mathematical integer and by the bounds of
//! its representable range, and the lossy conversions are described by
//! reduction into a range.

use vstd::arithmetic::div_mod::{lemma_mod_bound, lemma_mod_multiples_vanish, lemma_small_mod};
use vstd::prelude::*;

verus! {

/// The value of a machine integer as a mathematical integer, together with
/// the bounds of the representable range of its type.
pub trait IntBounds: Sized {
    /// The mathematical value.
    spec fn as_int(self) -> int;

    /// The smallest representable value of the type.
    spec fn min_int() -> int;

    /// The largest representable value of the type.
    spec fn max_int() -> int;

    /// Every value lies inside its own type's range.
    proof fn lemma_in_bounds(self)
        ensures
            Self::min_int() <= self.as_int() <= Self::max_int(),
    ;
}

impl IntBounds for u8 {
    open spec fn as_int(self) -> int {
        self as int
    }

    open spec fn min_int() -> int {
        u8::MIN as int
    }

    open spec fn max_int() -> int {
        u8::MAX as int
    }

    proof fn lemma_in_bounds(self) {
    }
}

impl IntBounds for u16 {
    open spec fn as_int(self) -> int {
        self as int
    }

    open spec fn min_int() -> int {
        u16::MIN as int
    }

    open spec fn max_int() -> int {
        u16::MAX as int
    }

    proof fn lemma_in_bounds(self) {
    }
}

impl IntBounds for u32 {
    open spec fn as_int(self) -> int {
        self as int
    }

    open spec fn min_int() -> int {
        u32::MIN as int
    }

    open spec fn max_int() -> int {
        u32::MAX as int
    }

    proof fn lemma_in_bounds(self) {
    }
}

impl IntBounds for u64 {
    open spec fn as_int(self) -> int {
        self as int
    }

    open spec fn min_int() -> int {
        u64::MIN as int
    }

    open spec fn max_int() -> int {
        u64::MAX as int
    }

    proof fn lemma_in_bounds(self) {
    }
}

impl IntBounds for u128 {
    open spec fn as_int(self) -> int {
        self as int
    }

    open spec fn min_int() -> int {
        u128::MIN as int
    }

    open spec fn max_int() -> int {
        u128::MAX as int
    }

    proof fn lemma_in_bounds(self) {
    }
}

impl IntBounds for usize {
    open spec fn as_int(self) -> int {
        self as int
    }

    open spec fn min_int() -> int {
        usize::MIN as int
    }

    open spec fn max_int() -> int {
        usize::MAX as int
    }

    proof fn lemma_in_bounds(self) {
    }
}

impl IntBounds for i8 {
    open spec fn as_int(self) -> int {
        self as int
    }

    open spec fn min_int() -> int {
        i8::MIN as int
    }

    open spec fn max_int() -> int {
        i8::MAX as int
    }

    proof fn lemma_in_bounds(self) {
    }
}

impl IntBounds for i16 {
    open spec fn as_int(self) -> int {
        self as int
    }

    open spec fn min_int() -> int {
        i16::MIN as int
    }

    open spec fn max_int() -> int {
        i16::MAX as int
    }

    proof fn lemma_in_bounds(self) {
    }
}

impl IntBounds for i32 {
    open spec fn as_int(self) -> int {
        self as int
    }

    open spec fn min_int() -> int {
        i32::MIN as int
    }

    open spec fn max_int() -> int {
        i32::MAX as int
    }

    proof fn lemma_in_bounds(self) {
    }
}

impl IntBounds for i64 {
    open spec fn as_int(self) -> int {
        self as int
    }

    open spec fn min_int() -> int {
        i64::MIN as int
    }

    open spec fn max_int() -> int {
        i64::MAX as int
    }

    proof fn lemma_in_bounds(self) {
    }
}

impl IntBounds for i128 {
    open spec fn as_int(self) -> int {
        self as int
    }

    open spec fn min_int() -> int {
        i128::MIN as int
    }

    open spec fn max_int() -> int {
        i128::MAX as int
    }

    proof fn lemma_in_bounds(self) {
    }
}

impl IntBounds for isize {
    open spec fn as_int(self) -> int {
        self as int
    }

    open spec fn min_int() -> int {
        isize::MIN as int
    }

    open spec fn max_int() -> int {
        isize::MAX as int
    }

    proof fn lemma_in_bounds(self) {
    }
}

/// Law: for a conversion pair whose destination range contains the whole
/// source range, every source value lies in the destination range, so a
/// checked conversion — whose contract succeeds exactly on in-range values
/// and preserves the value — cannot fail.
pub proof fn lemma_infallible_in_range<S: IntBounds, D: IntBounds>(v: S)
    requires
        D::min_int() <= S::min_int(),
        S::max_int() <= D::max_int(),
    ensures
        D::min_int() <= v.as_int() <= D::max_int(),
{
    v.lemma_in_bounds();
}

/// Reduction of `v` into the range `[lo, hi]` modulo the range's size.
/// For an unsigned destination (`lo == 0`) this is `v % (hi + 1)`; for a
/// two's-complement signed destination it is the value whose bit pattern is
/// the low bits of `v`.
pub open spec fn wrap_to(v: int, lo: int, hi: int) -> int
    recommends
        lo <= hi,
{
    lo + ((v - lo) % (hi - lo + 1))
}

/// The reduction lands inside the destination range.
pub proof fn lemma_wrap_to_in_range(v: int, lo: int, hi: int)
    requires
        lo <= hi,
    ensures
        lo <= wrap_to(v, lo, hi) <= hi,
{
    lemma_mod_bound(v - lo, hi - lo + 1);
}

/// A value already inside the range is left unchanged by the reduction.
/// Law: extending then truncating recovers the original value, since a
/// widened value still lies inside the source range that truncation reduces
/// into.
pub proof fn lemma_wrap_to_identity(v: int, lo: int, hi: int)
    requires
        lo <= v <= hi,
    ensures
        wrap_to(v, lo, hi) == v,
{
    lemma_small_mod((v - lo) as nat, (hi - lo + 1) as nat);
}

/// The reduction changes the value only by a multiple of the range's size:
/// `wrap_to(v, lo, hi)` is congruent to `v` modulo `hi - lo + 1`. Law:
/// truncation is bit-preserving on the overlap, matching binary truncation.
pub proof fn lemma_wrap_to_congruent(v: int, lo: int, hi: int)
    requires
        lo <= hi,
    ensures
        (wrap_to(v, lo, hi) - v) % (hi - lo + 1) == 0,
{
    let m = hi - lo + 1;
    lemma_fundamental_residue(v - lo, m);
    let q = (v - lo) / m;
    assert(wrap_to(v, lo, hi) - v == -(m * q));
    assert(-(m * q) == m * (-q)) by (nonlinear_arith);
    lemma_mod_multiples_vanish(-q, 0, m);
    lemma_small_mod(0, m as nat);
}

/// Reducing twice with the same range size gives the same result as reducing
/// once. Law: a wrapping reinterpretation applied twice (there and back, for
/// ranges of one size) is the identity on the second range.
pub proof fn lemma_wrap_to_involution(v: int, lo1: int, hi1: int, lo2: int, hi2: int)
    requires
        lo1 <= hi1,
        lo2 <= hi2,
        hi1 - lo1 == hi2 - lo2,
        lo2 <= v <= hi2,
    ensures
        wrap_to(wrap_to(v, lo1, hi1), lo2, hi2) == v,
{
    let m = hi1 - lo1 + 1;
    let w = wrap_to(v, lo1, hi1);
    lemma_wrap_to_congruent(v, lo1, hi1);
    let d = (w - v) / m;
    lemma_fundamental_residue(w - v, m);
    assert(w - v == m * d);
    assert(w - lo2 == m * d + (v - lo2));
    lemma_mod_multiples_vanish(d, v - lo2, m);
    lemma_small_mod((v - lo2) as nat, m as nat);
}

/// Reducing into a large power-of-a-size range and then into a smaller one
/// whose size divides it is the same as reducing directly into the smaller
/// one. This is why taking the low bits in two steps equals taking them in
/// one.
pub proof fn lemma_wrap_to_compose(v: int, big: int, lo: int, hi: int)
    requires
        lo <= hi,
        0 < big,
        big % (hi - lo + 1) == 0,
    ensures
        wrap_to(wrap_to(v, 0, big - 1), lo, hi) == wrap_to(v, lo, hi),
{
    let m = hi - lo + 1;
    let c = big / m;
    lemma_fundamental_residue(big, m);
    assert(big == m * c);
    let w = wrap_to(v, 0, big - 1);
    assert(w == v % big);
    lemma_fundamental_residue(v, big);
    let q = v / big;
    assert(w == v - big * q);
    assert(big * q == m * (c * q)) by (nonlinear_arith)
        requires
            big == m * c,
    ;
    assert(m * (-(c * q)) == -(m * (c * q))) by (nonlinear_arith);
    assert(w - lo == m * (-(c * q)) + (v - lo));
    lemma_mod_multiples_vanish(-(c * q), v - lo, m);
}

/// The reduction expressed through the nonnegative residue of `v`: the
/// residue itself while it lies below `hi`, and the residue pulled down by
/// one range size otherwise. This is the bridge between a reinterpreted bit
/// pattern (a residue) and `wrap_to`.
pub proof fn lemma_wrap_to_via_mod(v: int, lo: int, hi: int)
    requires
        lo <= 0 <= hi,
    ensures
        v % (hi - lo + 1) <= hi ==> wrap_to(v, lo, hi) == v % (hi - lo + 1),
        v % (hi - lo + 1) > hi ==> wrap_to(v, lo, hi) == v % (hi - lo + 1) - (hi - lo + 1),
{
    let m = hi - lo + 1;
    lemma_fundamental_residue(v, m);
    let q = v / m;
    let t = v % m;
    lemma_mod_bound(v, m);
    assert(v - lo == m * q + (t - lo));
    lemma_mod_multiples_vanish(q, t - lo, m);
    if t <= hi {
        lemma_small_mod((t - lo) as nat, m as nat);
    } else {
        assert(t - lo == m * 1 + (t - lo - m));
        lemma_mod_multiples_vanish(1, t - lo - m, m);
        lemma_small_mod((t - lo - m) as nat, m as nat);
    }
}

/// A value landed in `[0, m)` by adding `k` multiples of `m` is the residue.
pub proof fn lemma_mod_in_window(v: int, k: int, m: int)
    requires
        0 < m,
        0 <= v + k * m < m,
    ensures
        v % m == v + k * m,
{
    assert(v + k * m == m * k + v);
    lemma_mod_multiples_vanish(k, v, m);
    lemma_small_mod((v + k * m) as nat, m as nat);
    assert((m * k + v) % m == v % m);
}

/// The division-remainder identity in the direction used above.
proof fn lemma_fundamental_residue(x: int, m: int)
    requires
        0 < m,
    ensures
        x % m == x - m * (x / m),
        x == m * (x / m) + x % m,
{
    vstd::arithmetic::div_mod::lemma_fundamental_div_mod(x, m);
}

} // verus!
