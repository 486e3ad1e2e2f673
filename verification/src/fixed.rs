//! Fixed-point scalar helpers shared by the filter bank and the adaptive
//! gate: clamping, truncating division, and an exact integer square root.

use vstd::prelude::*;

verus! {

/// Truncating (round-toward-zero) signed division, as the hardware performs
/// it; spec-level `/` on `int` rounds toward negative infinity instead.
pub open spec fn spec_div_trunc(n: int, d: int) -> int
    recommends
        d > 0,
{
    if n >= 0 {
        n / d
    } else {
        -((-n) / d)
    }
}

pub open spec fn spec_clamp(x: int, lo: int, hi: int) -> int
    recommends
        lo <= hi,
{
    if x < lo {
        lo
    } else if x > hi {
        hi
    } else {
        x
    }
}

/// Clamps `x` into `[lo, hi]`.
pub fn clamp_i64(x: i64, lo: i64, hi: i64) -> (r: i64)
    requires
        lo <= hi,
    ensures
        r == spec_clamp(x as int, lo as int, hi as int),
        lo <= r <= hi,
{
    if x < lo {
        lo
    } else if x > hi {
        hi
    } else {
        x
    }
}

/// Truncating division of `n` by a positive divisor `d`.
pub fn div_trunc(n: i64, d: i64) -> (r: i64)
    requires
        d > 0,
        n > i64::MIN,
    ensures
        r == spec_div_trunc(n as int, d as int),
{
    if n >= 0 {
        n / d
    } else {
        -((-n) / d)
    }
}

/// Bounds a product of two non-negative values by the product of their
/// bounds; used throughout to discharge overflow obligations.
pub proof fn lemma_mul_le(a: int, b: int, bound_a: int, bound_b: int)
    requires
        0 <= a <= bound_a,
        0 <= b <= bound_b,
    ensures
        a * b <= bound_a * bound_b,
        a * b >= 0,
{
    assert(a * b <= bound_a * bound_b && a * b >= 0) by (nonlinear_arith)
        requires
            0 <= a <= bound_a,
            0 <= b <= bound_b,
    ;
}

/// Bounds a product of a value of either sign by the product of the bounds
/// on its magnitude and on the magnitude of the other factor.
pub proof fn lemma_abs_mul_le(a: int, b: int, bound_a: int, bound_b: int)
    requires
        -bound_a <= a <= bound_a,
        -bound_b <= b <= bound_b,
    ensures
        -(bound_a * bound_b) <= a * b <= bound_a * bound_b,
{
    assert(-(bound_a * bound_b) <= a * b <= bound_a * bound_b) by (nonlinear_arith)
        requires
            -bound_a <= a <= bound_a,
            -bound_b <= b <= bound_b,
    ;
}

/// Bounds a quotient of non-negative values by the quotient of the bound on
/// the dividend and the least value of the divisor.
pub proof fn lemma_div_bound(a: int, b: int, bound_a: int, min_b: int)
    requires
        0 <= a <= bound_a,
        1 <= min_b <= b,
    ensures
        0 <= a / b <= bound_a / min_b,
{
    vstd::arithmetic::div_mod::lemma_div_pos_is_pos(a, b);
    vstd::arithmetic::div_mod::lemma_div_is_ordered(a, bound_a, b);
    vstd::arithmetic::div_mod::lemma_div_is_ordered_by_denominator(bound_a, min_b, b);
}

/// The integer square root of a non-negative value.
pub open spec fn spec_isqrt(x: int) -> int
    decreases x,
{
    if x < 1 {
        0
    } else {
        let p = spec_isqrt(x - 1);
        if (p + 1) * (p + 1) <= x {
            p + 1
        } else {
            p
        }
    }
}

/// `spec_isqrt` is the unique non-negative root with `r * r <= x` and
/// `x < (r + 1) * (r + 1)`.
pub proof fn lemma_isqrt_property(x: int)
    requires
        x >= 0,
    ensures
        spec_isqrt(x) >= 0,
        spec_isqrt(x) * spec_isqrt(x) <= x,
        x < (spec_isqrt(x) + 1) * (spec_isqrt(x) + 1),
    decreases x,
{
    if x < 1 {
        assert(spec_isqrt(x) == 0);
    } else {
        lemma_isqrt_property(x - 1);
        let p = spec_isqrt(x - 1);
        assert(p * p <= x - 1 < (p + 1) * (p + 1));
        if (p + 1) * (p + 1) <= x {
            assert(x - 1 < (p + 1) * (p + 1));
            assert(x < (p + 2) * (p + 2)) by (nonlinear_arith)
                requires
                    p >= 0,
                    x <= (p + 1) * (p + 1),
            ;
        }
    }
}

pub proof fn lemma_isqrt_unique(x: int, r: int)
    requires
        x >= 0,
        r >= 0,
        r * r <= x,
        x < (r + 1) * (r + 1),
    ensures
        r == spec_isqrt(x),
{
    lemma_isqrt_property(x);
    let s = spec_isqrt(x);
    assert(r == s) by (nonlinear_arith)
        requires
            r >= 0,
            s >= 0,
            r * r <= x < (r + 1) * (r + 1),
            s * s <= x < (s + 1) * (s + 1),
    ;
}

/// The exact integer square root: the largest `r` with `r * r <= x`.
pub fn isqrt_i64(x: i64) -> (r: i64)
    requires
        x >= 0,
    ensures
        r >= 0,
        r * r <= x,
        x < (r + 1) * (r + 1),
        r == spec_isqrt(x as int),
{
    let mut lo: i64 = 0;
    // 3037000499 is the integer square root of i64::MAX.
    let mut hi: i64 = if x < 3037000499 {
        x
    } else {
        3037000499
    };
    proof {
        assert((hi + 1) * (hi + 1) > x) by (nonlinear_arith)
            requires
                0 <= x,
                hi == (if x < 3037000499 { x as int } else { 3037000499 as int }),
        ;
    }
    while lo < hi
        invariant
            0 <= lo <= hi <= 3037000499,
            lo * lo <= x,
            x < (hi + 1) * (hi + 1),
        decreases hi - lo,
    {
        let mid: i64 = lo + (hi - lo + 1) / 2;
        proof {
            assert(mid * mid <= 3037000499 * 3037000499) by (nonlinear_arith)
                requires
                    0 <= mid <= 3037000499,
            ;
        }
        if mid * mid <= x {
            lo = mid;
        } else {
            hi = mid - 1;
        }
    }
    proof {
        lemma_isqrt_unique(x as int, lo as int);
    }
    lo
}

} // verus!
