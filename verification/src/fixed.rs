//! Fixed-point representation: one whole unit is `SCALE` thousandths.

use vstd::prelude::*;

verus! {

/// Number of fixed-point units per whole unit; a value `v` stands for the
/// real number `v / SCALE`.
pub const SCALE: i64 = 1000;

/// Mathematical clamp of `v` into the closed interval `[lo, hi]`.
pub open spec fn clamp_spec(v: int, lo: int, hi: int) -> int {
    if v < lo {
        lo
    } else if v > hi {
        hi
    } else {
        v
    }
}

/// Clamp `v` into `[lo, hi]`.
pub fn clamp(v: i64, lo: i64, hi: i64) -> (r: i64)
    requires
        lo <= hi,
    ensures
        r == clamp_spec(v as int, lo as int, hi as int),
        lo <= r <= hi,
{
    if v < lo {
        lo
    } else if v > hi {
        hi
    } else {
        v
    }
}

/// Truncating division of a nonnegative value by a positive one; agrees
/// with mathematical (Euclidean) division on this domain.
pub fn div_nonneg(num: i64, den: i64) -> (q: i64)
    requires
        num >= 0,
        den > 0,
    ensures
        q == num as int / den as int,
        0 <= q <= num,
{
    let n: u64 = num as u64;
    let d: u64 = den as u64;
    let q: u64 = n / d;
    assert(n as int / d as int <= n as int) by (nonlinear_arith)
        requires
            d >= 1,
            n >= 0,
    ;
    q as i64
}

} // verus!
