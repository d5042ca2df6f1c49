//! Fixed-point scalars.
//!
//! Every quantity of the pipeline (coordinates, matrix entries, normals,
//! colour channels, depths) is an `i32` counted in units of `1 / ONE`.
//! Intermediate products are formed exactly in `i128`; a result is floored
//! back to the unit grid and saturated to the `i32` range.
use vstd::prelude::*;

verus! {

/// The fixed-point unit: a stored value `v` stands for `v / ONE`.
pub const ONE: i32 = 10_000;

/// Bound on the magnitude of the `i128` intermediates handled here.
pub const WIDE_LIMIT: i128 = 0x1000_0000_0000_0000_0000_0000_0000_0000;

/// Saturation of an exact value to the `i32` range.
pub open spec fn clamp32(v: int) -> int {
    if v < i32::MIN {
        i32::MIN as int
    } else if v > i32::MAX {
        i32::MAX as int
    } else {
        v
    }
}

/// `clamp32` as a stored value.
pub open spec fn c32(v: int) -> i32 {
    clamp32(v) as i32
}

/// The floor of the rational `n / d`, for either sign of `d`.
pub open spec fn floor_div(n: int, d: int) -> int {
    if d > 0 {
        n / d
    } else {
        (-n) / (-d)
    }
}

/// A value held at scale `ONE * ONE` (a product of two fixed values),
/// brought back to the unit grid and saturated.
pub open spec fn rescale(v: int) -> i32 {
    c32(floor_div(v, ONE as int))
}

/// Fixed-point product of two values.
pub open spec fn fmul(a: int, b: int) -> i32 {
    rescale(a * b)
}

/// Fixed-point quotient `a / b` of two values (`b != 0`).
pub open spec fn fdiv(a: int, b: int) -> i32 {
    c32(floor_div(a * ONE, b))
}

pub open spec fn is_root(n: int, r: int) -> bool {
    0 <= r && r * r <= n && n < (r + 1) * (r + 1)
}

/// The integer square root of a non-negative integer.
pub open spec fn sqrt_floor(n: int) -> int {
    choose|r: int| #[trigger] is_root(n, r)
}

pub proof fn lemma_square_monotone(a: int, b: int)
    requires
        0 <= a <= b,
    ensures
        a * a <= b * b,
{
    assert(a * a <= b * b) by (nonlinear_arith)
        requires
            0 <= a <= b,
    ;
}

/// The integer square root is the only root: any `r` with
/// `r * r <= n < (r + 1) * (r + 1)` is `sqrt_floor(n)`.
pub proof fn lemma_sqrt_floor_unique(n: int, r: int)
    requires
        is_root(n, r),
    ensures
        sqrt_floor(n) == r,
{
    let s = sqrt_floor(n);
    assert(is_root(n, s));
    if s < r {
        lemma_square_monotone(s + 1, r);
    } else if r < s {
        lemma_square_monotone(r + 1, s);
    }
}

pub proof fn lemma_mul_i32_bound(a: i32, b: i32)
    ensures
        -0x4000_0000_0000_0000 <= a * b <= 0x4000_0000_0000_0000,
{
    let x = a as int;
    let y = b as int;
    assert(-0x4000_0000_0000_0000 <= x * y <= 0x4000_0000_0000_0000) by (nonlinear_arith)
        requires
            -0x8000_0000 <= x < 0x8000_0000,
            -0x8000_0000 <= y < 0x8000_0000,
    ;
}

/// Exact product of two stored values.
pub fn wide_mul(a: i32, b: i32) -> (r: i128)
    ensures
        r == a * b,
        -0x4000_0000_0000_0000 <= r <= 0x4000_0000_0000_0000,
{
    proof {
        lemma_mul_i32_bound(a, b);
    }
    (a as i128) * (b as i128)
}

/// Floor division of wide integers.
pub fn div_floor(n: i128, d: i128) -> (q: i128)
    requires
        d != 0,
        -WIDE_LIMIT < n < WIDE_LIMIT,
        -WIDE_LIMIT < d < WIDE_LIMIT,
    ensures
        q == floor_div(n as int, d as int),
        -WIDE_LIMIT <= q <= WIDE_LIMIT,
{
    let (m, e) = if d > 0 {
        (n, d)
    } else {
        (0 - n, 0 - d)
    };
    if m >= 0 {
        ((m as u128) / (e as u128)) as i128
    } else {
        let t: u128 = (((0 - m) as u128) + (e as u128) - 1) / (e as u128);
        proof {
            let mi = m as int;
            let ei = e as int;
            let ti = t as int;
            assert(-ti == mi / ei) by (nonlinear_arith)
                requires
                    ti == (-mi + ei - 1) / ei,
                    ei > 0,
                    mi < 0,
            ;
            assert(ti <= -mi) by (nonlinear_arith)
                requires
                    ti == (-mi + ei - 1) / ei,
                    ei > 0,
                    mi < 0,
            ;
        }
        0 - (t as i128)
    }
}

/// Saturation of a wide integer to the `i32` range.
pub fn saturate(v: i128) -> (r: i32)
    ensures
        r as int == clamp32(v as int),
{
    if v < i32::MIN as i128 {
        i32::MIN
    } else if v > i32::MAX as i128 {
        i32::MAX
    } else {
        v as i32
    }
}

/// A value at scale `ONE * ONE` brought back to the unit grid.
pub fn rescale_wide(v: i128) -> (r: i32)
    requires
        -WIDE_LIMIT < v < WIDE_LIMIT,
    ensures
        r == rescale(v as int),
{
    saturate(div_floor(v, ONE as i128))
}

/// Fixed-point product, floored and saturated.
pub fn fixed_mul(a: i32, b: i32) -> (r: i32)
    ensures
        r == fmul(a as int, b as int),
{
    rescale_wide(wide_mul(a, b))
}

/// Fixed-point quotient, floored and saturated.
pub fn fixed_div(a: i32, b: i32) -> (r: i32)
    requires
        b != 0,
    ensures
        r == fdiv(a as int, b as int),
{
    let n = wide_mul(a, ONE);
    saturate(div_floor(n, b as i128))
}

/// Saturating sum.
pub fn sat_add(a: i32, b: i32) -> (r: i32)
    ensures
        r == c32(a + b),
{
    saturate(a as i128 + b as i128)
}

/// Saturating difference.
pub fn sat_sub(a: i32, b: i32) -> (r: i32)
    ensures
        r == c32(a - b),
{
    saturate(a as i128 - b as i128)
}

/// Integer square root by bisection.
pub fn isqrt(n: u128) -> (r: u128)
    ensures
        r == sqrt_floor(n as int),
        is_root(n as int, r as int),
        r <= 0xffff_ffff_ffff_ffff,
{
    let mut lo: u128 = 0;
    let mut hi: u128 = 0x1_0000_0000_0000_0000;
    proof {
        assert(n < hi * hi) by (nonlinear_arith)
            requires
                hi == 0x1_0000_0000_0000_0000,
                n <= 0xffff_ffff_ffff_ffff_ffff_ffff_ffff_ffff,
        ;
    }
    while hi - lo > 1
        invariant
            lo < hi <= 0x1_0000_0000_0000_0000,
            lo * lo <= n,
            n < hi * hi,
        decreases hi - lo,
    {
        let mid = lo + (hi - lo) / 2;
        proof {
            lemma_square_monotone(mid as int, 0xffff_ffff_ffff_ffff);
        }
        if mid * mid <= n {
            lo = mid;
        } else {
            hi = mid;
        }
    }
    proof {
        assert(hi == lo + 1);
        lemma_sqrt_floor_unique(n as int, lo as int);
    }
    lo
}


/// `q` is the floor of the rational `n / d`.
pub open spec fn is_floor_quotient(q: int, n: int, d: int) -> bool {
    &&& d > 0 ==> q * d <= n < q * d + d
    &&& d < 0 ==> q * d + d < n <= q * d
}

/// `floor_div` is the floor of the rational quotient.
pub proof fn lemma_floor_div_is_quotient(n: int, d: int)
    requires
        d != 0,
    ensures
        is_floor_quotient(floor_div(n, d), n, d),
{
    if d > 0 {
        vstd::arithmetic::div_mod::lemma_fundamental_div_mod(n, d);
        let (q, r) = (n / d, n % d);
        assert(q * d <= n < q * d + d) by (nonlinear_arith)
            requires
                n == d * q + r,
                0 <= r < d,
        ;
    } else {
        vstd::arithmetic::div_mod::lemma_fundamental_div_mod(-n, -d);
        let (q, r) = ((-n) / (-d), (-n) % (-d));
        assert(q * d + d < n <= q * d) by (nonlinear_arith)
            requires
                -n == (-d) * q + r,
                0 <= r < -d,
        ;
    }
}

} // verus!
