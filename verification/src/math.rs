//! Integer arithmetic shared by the ledgers: every fraction is taken with one
//! division that rounds down.

use vstd::prelude::*;

verus! {

/// Basis points that make a whole: 10000 = 100%.
pub const BPS_DENOMINATOR: u64 = 10_000;

/// `a * b / d` rounded down, in unbounded integers.
pub open spec fn mul_div_floor(a: int, b: int, d: int) -> int {
    (a * b) / d
}

/// A fraction `b / d` of at most one never yields more than `a`, and a
/// fraction of exactly one yields `a`.
pub proof fn lemma_mul_div_floor_bounds(a: int, b: int, d: int)
    requires
        0 <= a,
        0 <= b <= d,
        0 < d,
    ensures
        0 <= mul_div_floor(a, b, d) <= a,
        b == d ==> mul_div_floor(a, b, d) == a,
        b == 0 ==> mul_div_floor(a, b, d) == 0,
{
    assert(0 <= (a * b) / d <= a) by (nonlinear_arith)
        requires
            0 <= a,
            0 <= b <= d,
            0 < d,
    ;
    if b == d {
        assert((a * d) / d == a) by (nonlinear_arith)
            requires
                0 < d,
        ;
    }
    if b == 0 {
        assert(a * 0 == 0) by (nonlinear_arith);
    }
}

/// A larger fraction never yields less.
pub proof fn lemma_mul_div_floor_monotonic(a: int, b1: int, b2: int, d: int)
    requires
        0 <= a,
        b1 <= b2,
        0 < d,
    ensures
        mul_div_floor(a, b1, d) <= mul_div_floor(a, b2, d),
{
    assert((a * b1) / d <= (a * b2) / d) by (nonlinear_arith)
        requires
            0 <= a,
            b1 <= b2,
            0 < d,
    ;
}

/// `a * b / d` rounded down, for a fraction `b / d` of at most one. The
/// product is taken in 128 bits, so no input overflows.
pub fn mul_div(a: u64, b: u64, d: u64) -> (r: u64)
    requires
        0 < d,
        b <= d,
    ensures
        r == mul_div_floor(a as int, b as int, d as int),
        r <= a,
{
    proof {
        lemma_mul_div_floor_bounds(a as int, b as int, d as int);
        assert(a * b <= 0xffff_ffff_ffff_ffff * 0xffff_ffff_ffff_ffff) by (nonlinear_arith)
            requires
                0 <= a <= 0xffff_ffff_ffff_ffff,
                0 <= b <= 0xffff_ffff_ffff_ffff,
        ;
    }
    let wide: u128 = (a as u128) * (b as u128);
    (wide / (d as u128)) as u64
}

} // verus!
