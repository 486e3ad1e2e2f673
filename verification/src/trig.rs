//! Fixed-point sine and cosine on `[0, pi]`, used once per filter-bank
//! construction to derive biquad coefficients from the center frequency and
//! the sample rate.
//!
//! Angles and results carry `FP` (2^20) fractional scaling. Each function is
//! an exact truncated Taylor expansion, reduced to the first quadrant and
//! clamped into the range the true function has; its spec mirrors the
//! computation literally, so callers reason about the precise value.

use vstd::prelude::*;
use crate::fixed::lemma_mul_le;
use crate::fixed::spec_clamp;
use crate::fixed::clamp_i64;

verus! {

/// Fractional scaling of angles, trigonometric values and filter
/// coefficients: 2^20.
pub const FP: i64 = 1048576;

/// pi at `FP` scaling, rounded to nearest.
pub const PI_FP: i64 = 3294199;

/// pi / 2 at `FP` scaling, rounded down.
pub const HALF_PI_FP: i64 = 1647099;

/// Truncated Taylor expansion of cosine on the first quadrant, at `FP`
/// scaling, clamped into `[-FP, FP]`.
#[verifier::opaque]
pub open spec fn spec_cos_quarter(x: int) -> int
    recommends
        0 <= x <= HALF_PI_FP + 1,
{
    let t2 = x * x / (FP as int);
    let t4 = t2 * t2 / (FP as int);
    let t6 = t4 * t2 / (FP as int);
    let t8 = t6 * t2 / (FP as int);
    let t10 = t8 * t2 / (FP as int);
    spec_clamp(
        (FP as int) - t2 / 2 + t4 / 24 - t6 / 720 + t8 / 40320 - t10 / 3628800,
        -(FP as int),
        FP as int,
    )
}

/// Truncated Taylor expansion of sine on the first quadrant, at `FP`
/// scaling, clamped into `[0, FP]`.
#[verifier::opaque]
pub open spec fn spec_sin_quarter(x: int) -> int
    recommends
        0 <= x <= HALF_PI_FP + 1,
{
    let t2 = x * x / (FP as int);
    let p3 = x * t2 / (FP as int);
    let p5 = p3 * t2 / (FP as int);
    let p7 = p5 * t2 / (FP as int);
    let p9 = p7 * t2 / (FP as int);
    spec_clamp(x - p3 / 6 + p5 / 120 - p7 / 5040 + p9 / 362880, 0, FP as int)
}

/// Cosine on `[0, pi]` at `FP` scaling, by quadrant reduction.
pub open spec fn spec_cos_pi(x: int) -> int
    recommends
        0 <= x <= PI_FP,
{
    if x <= HALF_PI_FP {
        spec_cos_quarter(x)
    } else {
        -spec_cos_quarter((PI_FP as int) - x)
    }
}

/// Sine on `[0, pi]` at `FP` scaling, by quadrant reduction.
pub open spec fn spec_sin_pi(x: int) -> int
    recommends
        0 <= x <= PI_FP,
{
    if x <= HALF_PI_FP {
        spec_sin_quarter(x)
    } else {
        spec_sin_quarter((PI_FP as int) - x)
    }
}

fn cos_quarter(x: i64) -> (r: i64)
    requires
        0 <= x <= HALF_PI_FP + 1,
    ensures
        r == spec_cos_quarter(x as int),
        -FP <= r <= FP,
{
    proof {
        reveal(spec_cos_quarter);
        lemma_mul_le(x as int, x as int, 1647100, 1647100);
    }
    let t2: i64 = x * x / FP;
    proof {
        lemma_mul_le(t2 as int, t2 as int, 2588405, 2588405);
    }
    let t4: i64 = t2 * t2 / FP;
    proof {
        lemma_mul_le(t4 as int, t2 as int, 6389500, 2588405);
    }
    let t6: i64 = t4 * t2 / FP;
    proof {
        lemma_mul_le(t6 as int, t2 as int, 15773200, 2588405);
    }
    let t8: i64 = t6 * t2 / FP;
    proof {
        lemma_mul_le(t8 as int, t2 as int, 38938500, 2588405);
    }
    let t10: i64 = t8 * t2 / FP;
    clamp_i64(FP - t2 / 2 + t4 / 24 - t6 / 720 + t8 / 40320 - t10 / 3628800, -FP, FP)
}

fn sin_quarter(x: i64) -> (r: i64)
    requires
        0 <= x <= HALF_PI_FP + 1,
    ensures
        r == spec_sin_quarter(x as int),
        0 <= r <= FP,
{
    proof {
        reveal(spec_sin_quarter);
        lemma_mul_le(x as int, x as int, 1647100, 1647100);
    }
    let t2: i64 = x * x / FP;
    proof {
        lemma_mul_le(x as int, t2 as int, 1647100, 2588405);
    }
    let p3: i64 = x * t2 / FP;
    proof {
        lemma_mul_le(p3 as int, t2 as int, 4066200, 2588405);
    }
    let p5: i64 = p3 * t2 / FP;
    proof {
        lemma_mul_le(p5 as int, t2 as int, 10037900, 2588405);
    }
    let p7: i64 = p5 * t2 / FP;
    proof {
        lemma_mul_le(p7 as int, t2 as int, 24780000, 2588405);
    }
    let p9: i64 = p7 * t2 / FP;
    clamp_i64(x - p3 / 6 + p5 / 120 - p7 / 5040 + p9 / 362880, 0, FP)
}

/// Cosine of an angle in `[0, pi]`, both at `FP` scaling.
pub fn cos_fp(x: i64) -> (r: i64)
    requires
        0 <= x <= PI_FP,
    ensures
        r == spec_cos_pi(x as int),
        -FP <= r <= FP,
{
    if x <= HALF_PI_FP {
        cos_quarter(x)
    } else {
        -cos_quarter(PI_FP - x)
    }
}

/// Sine of an angle in `[0, pi]`, both at `FP` scaling.
pub fn sin_fp(x: i64) -> (r: i64)
    requires
        0 <= x <= PI_FP,
    ensures
        r == spec_sin_pi(x as int),
        0 <= r <= FP,
{
    if x <= HALF_PI_FP {
        sin_quarter(x)
    } else {
        sin_quarter(PI_FP - x)
    }
}

} // verus!
