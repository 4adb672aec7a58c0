//! Fixed-point vectors and rotations, and the hard speed cap.
use vstd::prelude::*;

use crate::fixed::{
    ceil_sqrt, ceil_sqrt_u128, is_ceil_sqrt, div_i128, div_toward_zero, lemma_div_toward_zero_bounds,
    lemma_square_monotone, SCALE,
};

verus! {

/// A three-component vector in millionths of its unit.
#[derive(Clone, Copy, Debug, PartialEq, Eq, Structural)]
pub struct Vec3 {
    pub x: i64,
    pub y: i64,
    pub z: i64,
}

/// A rotation quaternion, each component in millionths (a unit quaternion
/// has `x² + y² + z² + w²` close to `SCALE²`).
#[derive(Clone, Copy, Debug, PartialEq, Eq, Structural)]
pub struct Quat {
    pub x: i32,
    pub y: i32,
    pub z: i32,
    pub w: i32,
}

/// The largest speed the vehicle may keep: three metres per second.
pub const MAX_SPEED: i64 = 3_000_000;

/// The squared length of `v`.
pub open spec fn length_sq(v: Vec3) -> int {
    v.x * v.x + v.y * v.y + v.z * v.z
}

/// `v` rescaled to length `MAX_SPEED` when it is longer, and kept otherwise.
/// The length divided by is the square root rounded up, and each component
/// rounds toward zero, so the result never exceeds the cap.
pub open spec fn limit_speed_spec(v: Vec3) -> Vec3 {
    if length_sq(v) > MAX_SPEED * MAX_SPEED {
        let len = ceil_sqrt(length_sq(v));
        Vec3 {
            x: div_toward_zero(v.x * MAX_SPEED, len) as i64,
            y: div_toward_zero(v.y * MAX_SPEED, len) as i64,
            z: div_toward_zero(v.z * MAX_SPEED, len) as i64,
        }
    } else {
        v
    }
}

/// The world-space image of the unit up vector `(0, 1, 0)` under `q`.
pub open spec fn up_direction_spec(q: Quat) -> Vec3 {
    Vec3 {
        x: div_toward_zero(2 * (q.x * q.y - q.w * q.z), SCALE as int) as i64,
        y: div_toward_zero(q.w * q.w + q.y * q.y - q.x * q.x - q.z * q.z, SCALE as int) as i64,
        z: div_toward_zero(2 * (q.y * q.z + q.w * q.x), SCALE as int) as i64,
    }
}

/// `|a * b| <= ka * kb` when `|a| <= ka` and `|b| <= kb`.
pub proof fn lemma_mul_abs_bound(a: int, b: int, ka: int, kb: int)
    requires
        -ka <= a <= ka,
        -kb <= b <= kb,
    ensures
        -(ka * kb) <= a * b <= ka * kb,
{
    assert(-(ka * kb) <= a * b <= ka * kb) by (nonlinear_arith)
        requires -ka <= a <= ka, -kb <= b <= kb;
}

/// One component of a rescaled vector: `|c * cap / len| * len <= |c| * cap`,
/// squared.
proof fn lemma_scaled_component(c: int, len: int)
    requires
        len > 0,
    ensures
        ({
            let r = div_toward_zero(c * MAX_SPEED, len);
            r * r * (len * len) <= c * c * (MAX_SPEED * MAX_SPEED)
        }),
{
    let a = c * MAX_SPEED;
    let r = div_toward_zero(a, len);
    lemma_div_toward_zero_bounds(a, len);
    // |r| * len <= |a|
    let ra = if r >= 0 { r } else { -r };
    let aa = if a >= 0 { a } else { -a };
    assert(ra * len <= aa) by (nonlinear_arith)
        requires
            a >= 0 ==> 0 <= r && r * len <= a,
            a < 0 ==> r <= 0 && r * len >= a,
            ra == (if r >= 0 { r } else { -r }),
            aa == (if a >= 0 { a } else { -a }),
            len > 0;
    lemma_square_monotone(ra * len, aa);
    assert(r * r * (len * len) == (ra * len) * (ra * len)) by (nonlinear_arith)
        requires ra == (if r >= 0 { r } else { -r });
    assert(aa * aa == c * c * (MAX_SPEED * MAX_SPEED)) by (nonlinear_arith)
        requires aa == (if a >= 0 { a } else { -a }), a == c * MAX_SPEED;
}

/// A rescaled vector is never longer than the cap.
pub proof fn lemma_limit_speed_bounded(v: Vec3)
    ensures
        length_sq(limit_speed_spec(v)) <= MAX_SPEED * MAX_SPEED,
{
    if length_sq(v) > MAX_SPEED * MAX_SPEED {
        let n = length_sq(v);
        let len = ceil_sqrt(n);
        let cap2 = MAX_SPEED * MAX_SPEED;
        let rx = div_toward_zero(v.x * MAX_SPEED, len);
        let ry = div_toward_zero(v.y * MAX_SPEED, len);
        let rz = div_toward_zero(v.z * MAX_SPEED, len);
        lemma_ceil_sqrt_exists(n);
        if len == 0 {
            assert(len * len == 0);
        }
        lemma_scaled_component(v.x as int, len);
        lemma_scaled_component(v.y as int, len);
        lemma_scaled_component(v.z as int, len);
        let s = rx * rx + ry * ry + rz * rz;
        assert(s * (len * len) <= n * cap2) by (nonlinear_arith)
            requires
                rx * rx * (len * len) <= v.x * v.x * cap2,
                ry * ry * (len * len) <= v.y * v.y * cap2,
                rz * rz * (len * len) <= v.z * v.z * cap2,
                s == rx * rx + ry * ry + rz * rz,
                n == v.x * v.x + v.y * v.y + v.z * v.z;
        assert(s <= cap2) by (nonlinear_arith)
            requires
                s * (len * len) <= n * cap2,
                len * len >= n,
                n > 0,
                cap2 > 0;
        assert(rx * rx >= 0 && ry * ry >= 0 && rz * rz >= 0) by (nonlinear_arith);
        lemma_fits_i64(rx, s);
        lemma_fits_i64(ry, s);
        lemma_fits_i64(rz, s);
    }
}

/// A component whose square is at most the squared cap fits in an `i64`.
proof fn lemma_fits_i64(r: int, s: int)
    requires
        r * r <= s,
        s <= MAX_SPEED * MAX_SPEED,
    ensures
        -MAX_SPEED <= r <= MAX_SPEED,
{
    if r > MAX_SPEED {
        lemma_square_monotone(MAX_SPEED + 1, r);
    } else if r < -MAX_SPEED {
        lemma_square_monotone(MAX_SPEED + 1, -r);
        assert((-r) * (-r) == r * r) by (nonlinear_arith);
    }
}

/// Every non-negative number has a rounded-up square root.
proof fn lemma_ceil_sqrt_exists(n: int)
    requires
        n >= 0,
    ensures
        is_ceil_sqrt(ceil_sqrt(n), n),
    decreases n,
{
    if n == 0 {
        assert(is_ceil_sqrt(0, 0));
    } else {
        lemma_ceil_sqrt_exists(n - 1);
        let p = ceil_sqrt(n - 1);
        if p * p >= n {
            assert(is_ceil_sqrt(p, n));
        } else {
            assert((p + 1) * (p + 1) == p * p + 2 * p + 1) by (nonlinear_arith);
            assert(is_ceil_sqrt(p + 1, n));
        }
    }
}

/// Applies the hard speed cap: a vector longer than `MAX_SPEED` is rescaled
/// to that length in the same direction, any other is kept.
pub fn limit_speed(v: Vec3) -> (r: Vec3)
    ensures
        r == limit_speed_spec(v),
        length_sq(r) <= MAX_SPEED * MAX_SPEED,
{
    let x = v.x as i128;
    let y = v.y as i128;
    let z = v.z as i128;
    proof {
        lemma_mul_abs_bound(x as int, x as int, 0x8000_0000_0000_0000, 0x8000_0000_0000_0000);
        lemma_mul_abs_bound(y as int, y as int, 0x8000_0000_0000_0000, 0x8000_0000_0000_0000);
        lemma_mul_abs_bound(z as int, z as int, 0x8000_0000_0000_0000, 0x8000_0000_0000_0000);
        assert(x * x >= 0 && y * y >= 0 && z * z >= 0) by (nonlinear_arith);
    }
    let n: u128 = (x * x) as u128 + (y * y) as u128 + (z * z) as u128;
    proof {
        lemma_limit_speed_bounded(v);
    }
    let cap = MAX_SPEED as i128;
    if n > (cap * cap) as u128 {
        let len = ceil_sqrt_u128(n) as i128;
        proof {
            lemma_mul_abs_bound(x as int, MAX_SPEED as int, 0x8000_0000_0000_0000, MAX_SPEED as int);
            lemma_mul_abs_bound(y as int, MAX_SPEED as int, 0x8000_0000_0000_0000, MAX_SPEED as int);
            lemma_mul_abs_bound(z as int, MAX_SPEED as int, 0x8000_0000_0000_0000, MAX_SPEED as int);
            if len == 0 {
                assert(len * len == 0);
            }
        }
        let rx = div_i128(x * cap, len);
        let ry = div_i128(y * cap, len);
        let rz = div_i128(z * cap, len);
        Vec3 { x: rx as i64, y: ry as i64, z: rz as i64 }
    } else {
        v
    }
}

/// Rotates the unit up vector `(0, 1, 0)` by `q`, giving the vehicle's
/// current up direction in world space.
pub fn up_direction(q: Quat) -> (r: Vec3)
    ensures
        r == up_direction_spec(q),
{
    let x = q.x as i128;
    let y = q.y as i128;
    let z = q.z as i128;
    let w = q.w as i128;
    let ghost k: int = 0x8000_0000;
    proof {
        lemma_mul_abs_bound(x as int, y as int, k, k);
        lemma_mul_abs_bound(w as int, z as int, k, k);
        lemma_mul_abs_bound(y as int, z as int, k, k);
        lemma_mul_abs_bound(w as int, x as int, k, k);
        lemma_mul_abs_bound(w as int, w as int, k, k);
        lemma_mul_abs_bound(y as int, y as int, k, k);
        lemma_mul_abs_bound(x as int, x as int, k, k);
        lemma_mul_abs_bound(z as int, z as int, k, k);
    }
    let s = SCALE as i128;
    let ux = div_i128(2 * (x * y - w * z), s);
    let uy = div_i128(w * w + y * y - x * x - z * z, s);
    let uz = div_i128(2 * (y * z + w * x), s);
    proof {
        lemma_div_toward_zero_bounds(2 * (x * y - w * z), SCALE as int);
        lemma_div_toward_zero_bounds(w * w + y * y - x * x - z * z, SCALE as int);
        lemma_div_toward_zero_bounds(2 * (y * z + w * x), SCALE as int);
    }
    Vec3 { x: ux as i64, y: uy as i64, z: uz as i64 }
}

} // verus!
