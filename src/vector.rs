//! Fixed-point vectors of two, three and four components.
use vstd::prelude::*;
use crate::fixed::{
    c32, div_floor, fdiv, fixed_mul, fmul, isqrt, rescale, rescale_wide, sat_add, sat_sub, saturate,
    sqrt_floor, wide_mul, ONE,
};

verus! {

#[derive(Clone, Copy, Debug, PartialEq, Eq, Structural)]
pub struct Vec2 {
    pub x: i32,
    pub y: i32,
}

#[derive(Clone, Copy, Debug, PartialEq, Eq, Structural)]
pub struct Vec3 {
    pub x: i32,
    pub y: i32,
    pub z: i32,
}

#[derive(Clone, Copy, Debug, PartialEq, Eq, Structural)]
pub struct Vec4 {
    pub x: i32,
    pub y: i32,
    pub z: i32,
    pub w: i32,
}

impl Vec2 {
    pub fn new(x: i32, y: i32) -> (r: Vec2)
        ensures
            r == (Vec2 { x, y }),
    {
        Vec2 { x, y }
    }
}

impl Vec3 {
    pub fn new(x: i32, y: i32, z: i32) -> (r: Vec3)
        ensures
            r == (Vec3 { x, y, z }),
    {
        Vec3 { x, y, z }
    }

    pub fn zero() -> (r: Vec3)
        ensures
            r == (Vec3 { x: 0, y: 0, z: 0 }),
    {
        Vec3 { x: 0, y: 0, z: 0 }
    }
}

impl Vec4 {
    pub fn new(x: i32, y: i32, z: i32, w: i32) -> (r: Vec4)
        ensures
            r == (Vec4 { x, y, z, w }),
    {
        Vec4 { x, y, z, w }
    }

    /// The first three components.
    pub fn xyz(&self) -> (r: Vec3)
        ensures
            r == xyz(*self),
    {
        Vec3 { x: self.x, y: self.y, z: self.z }
    }
}

pub open spec fn xyz(v: Vec4) -> Vec3 {
    Vec3 { x: v.x, y: v.y, z: v.z }
}

/// A point or direction lifted to homogeneous coordinates with the given `w`.
pub open spec fn lift(v: Vec3, w: i32) -> Vec4 {
    Vec4 { x: v.x, y: v.y, z: v.z, w }
}

/// Exact dot product at scale `ONE * ONE`.
pub open spec fn dot4_wide(a: Vec4, b: Vec4) -> int {
    a.x * b.x + a.y * b.y + a.z * b.z + a.w * b.w
}

/// Exact dot product at scale `ONE * ONE`.
pub open spec fn dot3_wide(a: Vec3, b: Vec3) -> int {
    a.x * b.x + a.y * b.y + a.z * b.z
}

/// Fixed-point dot product.
pub open spec fn dot3(a: Vec3, b: Vec3) -> i32 {
    rescale(dot3_wide(a, b))
}

pub open spec fn add3(a: Vec3, b: Vec3) -> Vec3 {
    Vec3 { x: c32(a.x + b.x), y: c32(a.y + b.y), z: c32(a.z + b.z) }
}

pub open spec fn sub3(a: Vec3, b: Vec3) -> Vec3 {
    Vec3 { x: c32(a.x - b.x), y: c32(a.y - b.y), z: c32(a.z - b.z) }
}

/// Each component multiplied by the fixed-point scalar `s`.
pub open spec fn scale3(v: Vec3, s: int) -> Vec3 {
    Vec3 { x: fmul(v.x as int, s), y: fmul(v.y as int, s), z: fmul(v.z as int, s) }
}

pub open spec fn cross(a: Vec3, b: Vec3) -> Vec3 {
    Vec3 {
        x: rescale(a.y * b.z - a.z * b.y),
        y: rescale(a.z * b.x - a.x * b.z),
        z: rescale(a.x * b.y - a.y * b.x),
    }
}

/// Squared length at scale `ONE * ONE`.
pub open spec fn norm_sq(v: Vec3) -> int {
    v.x * v.x + v.y * v.y + v.z * v.z
}

/// Length at scale `ONE`, rounded down.
pub open spec fn length(v: Vec3) -> int {
    sqrt_floor(norm_sq(v))
}

/// The unit vector along `v`; a vector of length zero is left as it is.
pub open spec fn normalize(v: Vec3) -> Vec3 {
    let l = length(v);
    if l == 0 {
        v
    } else {
        Vec3 { x: fdiv(v.x as int, l), y: fdiv(v.y as int, l), z: fdiv(v.z as int, l) }
    }
}

pub fn dot4_exec(a: &Vec4, b: &Vec4) -> (r: i128)
    ensures
        r == dot4_wide(*a, *b),
        -0x1_0000_0000_0000_0000 <= r <= 0x1_0000_0000_0000_0000,
{
    wide_mul(a.x, b.x) + wide_mul(a.y, b.y) + wide_mul(a.z, b.z) + wide_mul(a.w, b.w)
}

pub fn dot3_exact(a: &Vec3, b: &Vec3) -> (r: i128)
    ensures
        r == dot3_wide(*a, *b),
        -0xc000_0000_0000_0000 <= r <= 0xc000_0000_0000_0000,
{
    wide_mul(a.x, b.x) + wide_mul(a.y, b.y) + wide_mul(a.z, b.z)
}

/// Fixed-point dot product of two three-vectors.
pub fn dot(a: &Vec3, b: &Vec3) -> (r: i32)
    ensures
        r == dot3(*a, *b),
{
    rescale_wide(dot3_exact(a, b))
}

pub fn vadd(a: &Vec3, b: &Vec3) -> (r: Vec3)
    ensures
        r == add3(*a, *b),
{
    Vec3 { x: sat_add(a.x, b.x), y: sat_add(a.y, b.y), z: sat_add(a.z, b.z) }
}

pub fn vsub(a: &Vec3, b: &Vec3) -> (r: Vec3)
    ensures
        r == sub3(*a, *b),
{
    Vec3 { x: sat_sub(a.x, b.x), y: sat_sub(a.y, b.y), z: sat_sub(a.z, b.z) }
}

pub fn vscale(v: &Vec3, s: i32) -> (r: Vec3)
    ensures
        r == scale3(*v, s as int),
{
    Vec3 { x: fixed_mul(v.x, s), y: fixed_mul(v.y, s), z: fixed_mul(v.z, s) }
}

pub fn vcross(a: &Vec3, b: &Vec3) -> (r: Vec3)
    ensures
        r == cross(*a, *b),
{
    Vec3 {
        x: rescale_wide(wide_mul(a.y, b.z) - wide_mul(a.z, b.y)),
        y: rescale_wide(wide_mul(a.z, b.x) - wide_mul(a.x, b.z)),
        z: rescale_wide(wide_mul(a.x, b.y) - wide_mul(a.y, b.x)),
    }
}

/// Length of `v` at scale `ONE`, rounded down.
pub fn vlength(v: &Vec3) -> (r: u128)
    ensures
        r == length(*v),
        r <= 0xffff_ffff_ffff_ffff,
{
    let n = dot3_exact(v, v);
    proof {
        assert(n >= 0) by (nonlinear_arith)
            requires
                n == v.x * v.x + v.y * v.y + v.z * v.z,
        ;
    }
    isqrt(n as u128)
}

/// The unit vector along `v`, or `v` itself where its length is zero.
pub fn vnormalize(v: &Vec3) -> (r: Vec3)
    ensures
        r == normalize(*v),
{
    let l = vlength(v);
    if l == 0 {
        *v
    } else {
        let d = l as i128;
        Vec3 {
            x: saturate(div_floor(wide_mul(v.x, ONE), d)),
            y: saturate(div_floor(wide_mul(v.y, ONE), d)),
            z: saturate(div_floor(wide_mul(v.z, ONE), d)),
        }
    }
}

} // verus!
