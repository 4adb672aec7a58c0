//! Fixed-point helpers: the scale, clamping and division that rounds toward
//! zero.
use vstd::prelude::*;

verus! {

/// One whole unit (one metre, second, radian or newton) in fixed-point counts.
pub const SCALE: i64 = 1_000_000;

/// `v` limited to the closed range `[lo, hi]`.
pub open spec fn clamp(v: int, lo: int, hi: int) -> int {
    if v < lo {
        lo
    } else if v > hi {
        hi
    } else {
        v
    }
}

/// `a / b` rounded toward zero, for a positive divisor.
pub open spec fn div_toward_zero(a: int, b: int) -> int {
    if a >= 0 {
        a / b
    } else {
        -((-a) / b)
    }
}

/// Limits `v` to `[lo, hi]`.
pub fn clamp_i128(v: i128, lo: i128, hi: i128) -> (r: i128)
    requires
        lo <= hi,
    ensures
        r == clamp(v as int, lo as int, hi as int),
{
    if v < lo {
        lo
    } else if v > hi {
        hi
    } else {
        v
    }
}

/// Divides `a` by the positive `b`, rounding toward zero.
pub fn div_i128(a: i128, b: i128) -> (r: i128)
    requires
        b > 0,
        a > i128::MIN,
    ensures
        r == div_toward_zero(a as int, b as int),
{
    if a >= 0 {
        a / b
    } else {
        let m: i128 = -a;
        -(m / b)
    }
}

/// Rounding toward zero never moves a quotient away from zero, and keeps its
/// sign: `|a / b| * b <= |a|`.
pub proof fn lemma_div_toward_zero_bounds(a: int, b: int)
    requires
        b > 0,
    ensures
        a >= 0 ==> 0 <= div_toward_zero(a, b) <= a,
        a < 0 ==> a <= div_toward_zero(a, b) <= 0,
        a >= 0 ==> div_toward_zero(a, b) * b <= a,
        a < 0 ==> div_toward_zero(a, b) * b >= a,
{
    if a >= 0 {
        assert(0 <= a / b <= a) by (nonlinear_arith)
            requires a >= 0, b > 0;
        assert((a / b) * b <= a) by (nonlinear_arith)
            requires a >= 0, b > 0;
    } else {
        let m = -a;
        assert(0 <= m / b <= m) by (nonlinear_arith)
            requires m > 0, b > 0;
        assert((m / b) * b <= m) by (nonlinear_arith)
            requires m > 0, b > 0;
        assert(-(m / b) * b == -((m / b) * b)) by (nonlinear_arith);
    }
}

/// `r` is the smallest non-negative integer whose square is at least `n`.
pub open spec fn is_ceil_sqrt(r: int, n: int) -> bool {
    &&& r >= 0
    &&& r * r >= n
    &&& (r == 0 || (r - 1) * (r - 1) < n)
}

/// The integer square root of `n`, rounded up.
pub open spec fn ceil_sqrt(n: int) -> int {
    choose|r: int| is_ceil_sqrt(r, n)
}

/// Squaring is monotone on non-negative integers.
pub proof fn lemma_square_monotone(a: int, b: int)
    requires
        0 <= a <= b,
    ensures
        a * a <= b * b,
{
    assert(a * a <= b * b) by (nonlinear_arith)
        requires 0 <= a <= b;
}

/// A number has one rounded-up square root.
pub proof fn lemma_ceil_sqrt_unique(r: int, n: int)
    requires
        is_ceil_sqrt(r, n),
    ensures
        ceil_sqrt(n) == r,
{
    let c = ceil_sqrt(n);
    assert(is_ceil_sqrt(c, n));
    if c < r {
        lemma_square_monotone(c, r - 1);
    } else if r < c {
        lemma_square_monotone(r, c - 1);
    }
}

/// The rounded-up square root of `n`, found by bisection.
pub fn ceil_sqrt_u128(n: u128) -> (r: u128)
    requires
        n <= 0xffff_ffff_ffff_fffe_0000_0000_0000_0001u128,
    ensures
        is_ceil_sqrt(r as int, n as int),
        r as int == ceil_sqrt(n as int),
        r <= 0xffff_ffff_ffff_ffffu128,
{
    let mut lo: u128 = 0;
    let mut hi: u128 = 0xffff_ffff_ffff_ffff;
    assert(hi * hi == 0xffff_ffff_ffff_fffe_0000_0000_0000_0001u128);
    while lo < hi
        invariant
            lo <= hi <= 0xffff_ffff_ffff_ffffu128,
            hi * hi >= n,
            lo == 0 || (lo - 1) * (lo - 1) < n,
        decreases hi - lo,
    {
        let mid: u128 = lo + (hi - lo) / 2;
        proof {
            lemma_square_monotone(mid as int, hi as int);
            lemma_square_monotone(hi as int, 0xffff_ffff_ffff_ffff);
        }
        if mid * mid >= n {
            hi = mid;
        } else {
            lo = mid + 1;
        }
    }
    proof {
        lemma_ceil_sqrt_unique(lo as int, n as int);
    }
    lo
}

} // verus!
