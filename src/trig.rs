//! Fixed-point sine and cosine.
//!
//! Angles are in radians at scale `ONE`. After reduction to one period the
//! sine is Bhaskara's rational approximation
//! `16 t (pi - t) / (5 pi^2 - 4 t (pi - t))` on `[0, pi]`, mirrored on
//! `[pi, 2 pi)`; it stays within two thousandths of the true sine.
use vstd::prelude::*;
use crate::fixed::{div_floor, floor_div, ONE};

verus! {

/// pi at scale `ONE`.
pub const PI: i64 = 31416;

/// 2 pi at scale `ONE`.
pub const TWO_PI: i64 = 62832;

/// pi / 2 at scale `ONE`.
pub const HALF_PI: i64 = 15708;

/// The angle reduced to `[0, 2 pi)`.
pub open spec fn wrap_angle(x: int) -> int {
    x - floor_div(x, TWO_PI as int) * TWO_PI
}

/// Bhaskara's approximation of the sine on `[0, pi]`, at scale `ONE`.
pub open spec fn bhaskara(t: int) -> int {
    let p = t * (PI - t);
    floor_div(ONE * 16 * p, 5 * PI * PI - 4 * p)
}

/// Sine of an angle at scale `ONE`.
pub open spec fn sine(x: int) -> int {
    let t = wrap_angle(x);
    if t < PI {
        bhaskara(t)
    } else {
        -bhaskara(t - PI)
    }
}

/// Cosine of an angle at scale `ONE`: the sine a quarter turn on.
pub open spec fn cosine(x: int) -> int {
    sine(x + HALF_PI)
}

proof fn lemma_bhaskara_range(t: int)
    requires
        0 <= t < PI,
    ensures
        0 <= bhaskara(t) <= ONE,
        5 * PI * PI - 4 * (t * (PI - t)) > 0,
{
    let p = t * (PI - t);
    let pi = PI as int;
    assert(0 <= p && 4 * p <= pi * pi) by (nonlinear_arith)
        requires
            p == t * (pi - t),
            0 <= t < pi,
    ;
    let d = 5 * pi * pi - 4 * p;
    let n = (ONE as int) * 16 * p;
    assert(d > 0);
    assert(n / d <= ONE as int) by (nonlinear_arith)
        requires
            n == 10000 * 16 * p,
            d == 5 * pi * pi - 4 * p,
            0 <= p,
            4 * p <= pi * pi,
            d > 0,
    ;
    assert(n / d >= 0) by (nonlinear_arith)
        requires
            n >= 0,
            d > 0,
    ;
}

fn bhaskara_exec(t: i64) -> (r: i32)
    requires
        0 <= t < PI,
    ensures
        r == bhaskara(t as int),
        0 <= r <= ONE,
{
    proof {
        lemma_bhaskara_range(t as int);
    }
    let p: i128 = (t as i128) * ((PI - t) as i128);
    let pi = PI as i128;
    let q = div_floor((ONE as i128) * 16 * p, 5 * pi * pi - 4 * p);
    q as i32
}

/// Sine of `x` radians at scale `ONE`.
pub fn sin_fixed(x: i64) -> (r: i32)
    ensures
        r == sine(x as int),
        -ONE <= r <= ONE,
{
    let q = div_floor(x as i128, TWO_PI as i128);
    let t = x as i128 - q * (TWO_PI as i128);
    proof {
        assert(0 <= t < TWO_PI) by (nonlinear_arith)
            requires
                q == (x as int) / 62832,
                t == x - q * 62832,
        ;
    }
    let t = t as i64;
    if t < PI {
        bhaskara_exec(t)
    } else {
        0 - bhaskara_exec(t - PI)
    }
}

/// Cosine of `x` radians at scale `ONE`.
pub fn cos_fixed(x: i64) -> (r: i32)
    requires
        x <= i64::MAX - HALF_PI,
    ensures
        r == cosine(x as int),
        -ONE <= r <= ONE,
{
    sin_fixed(x + HALF_PI)
}

} // verus!
