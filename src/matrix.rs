//! 4x4 fixed-point matrices and the builders of the model, view, projection
//! and viewport transforms.
use vstd::prelude::*;
use crate::fixed::{c32, div_floor, floor_div, rescale, rescale_wide, saturate, wide_mul, ONE};
use crate::trig::{cos_fixed, cosine, sin_fixed, sine, PI, TWO_PI};
use crate::vector::{
    cross, dot3_exact, dot3_wide, dot4_exec, dot4_wide, normalize, sub3, vcross, vnormalize, vsub,
    Vec3, Vec4,
};

verus! {

/// A 4x4 matrix stored by rows.
#[derive(Clone, Copy, Debug, PartialEq, Eq, Structural)]
pub struct Mat4 {
    pub r0: Vec4,
    pub r1: Vec4,
    pub r2: Vec4,
    pub r3: Vec4,
}

/// Minus one at scale `ONE`.
pub const NEG_ONE: i32 = -10_000;

/// Depth scale of the viewport transform: NDC depth is multiplied by 255.
pub const DEPTH_SCALE: i32 = 2_550_000;

pub open spec fn row4(a: i32, b: i32, c: i32, d: i32) -> Vec4 {
    Vec4 { x: a, y: b, z: c, w: d }
}

pub open spec fn col0(m: Mat4) -> Vec4 {
    row4(m.r0.x, m.r1.x, m.r2.x, m.r3.x)
}

pub open spec fn col1(m: Mat4) -> Vec4 {
    row4(m.r0.y, m.r1.y, m.r2.y, m.r3.y)
}

pub open spec fn col2(m: Mat4) -> Vec4 {
    row4(m.r0.z, m.r1.z, m.r2.z, m.r3.z)
}

pub open spec fn col3(m: Mat4) -> Vec4 {
    row4(m.r0.w, m.r1.w, m.r2.w, m.r3.w)
}

/// Matrix times column vector: each component is the row's dot product,
/// floored to the unit grid and saturated.
pub open spec fn mat_vec(m: Mat4, v: Vec4) -> Vec4 {
    row4(
        rescale(dot4_wide(m.r0, v)),
        rescale(dot4_wide(m.r1, v)),
        rescale(dot4_wide(m.r2, v)),
        rescale(dot4_wide(m.r3, v)),
    )
}

/// One row of a product: the row `r` times each column of `b`.
pub open spec fn row_times(r: Vec4, b: Mat4) -> Vec4 {
    row4(
        rescale(dot4_wide(r, col0(b))),
        rescale(dot4_wide(r, col1(b))),
        rescale(dot4_wide(r, col2(b))),
        rescale(dot4_wide(r, col3(b))),
    )
}

/// The matrix product `a * b`.
pub open spec fn mat_mul(a: Mat4, b: Mat4) -> Mat4 {
    Mat4 {
        r0: row_times(a.r0, b),
        r1: row_times(a.r1, b),
        r2: row_times(a.r2, b),
        r3: row_times(a.r3, b),
    }
}

/// The homogeneous row `(0, 0, 0, 1)`.
pub open spec fn unit_w() -> Vec4 {
    row4(0, 0, 0, ONE)
}

pub open spec fn sin32(x: int) -> i32 {
    c32(sine(x))
}

pub open spec fn cos32(x: int) -> i32 {
    c32(cosine(x))
}

pub open spec fn neg32(v: i32) -> i32 {
    c32(-v)
}

pub open spec fn rotation_x_spec(a: i32) -> Mat4 {
    let (s, c) = (sin32(a as int), cos32(a as int));
    Mat4 {
        r0: row4(ONE, 0, 0, 0),
        r1: row4(0, c, neg32(s), 0),
        r2: row4(0, s, c, 0),
        r3: unit_w(),
    }
}

pub open spec fn rotation_y_spec(a: i32) -> Mat4 {
    let (s, c) = (sin32(a as int), cos32(a as int));
    Mat4 {
        r0: row4(c, 0, s, 0),
        r1: row4(0, ONE, 0, 0),
        r2: row4(neg32(s), 0, c, 0),
        r3: unit_w(),
    }
}

pub open spec fn rotation_z_spec(a: i32) -> Mat4 {
    let (s, c) = (sin32(a as int), cos32(a as int));
    Mat4 {
        r0: row4(c, neg32(s), 0, 0),
        r1: row4(s, c, 0, 0),
        r2: row4(0, 0, ONE, 0),
        r3: unit_w(),
    }
}

pub open spec fn scale_spec(s: i32) -> Mat4 {
    Mat4 { r0: row4(s, 0, 0, 0), r1: row4(0, s, 0, 0), r2: row4(0, 0, s, 0), r3: unit_w() }
}

pub open spec fn translation_spec(t: Vec3) -> Mat4 {
    Mat4 {
        r0: row4(ONE, 0, 0, t.x),
        r1: row4(0, ONE, 0, t.y),
        r2: row4(0, 0, ONE, t.z),
        r3: unit_w(),
    }
}

/// The Euler rotation `Rz * Ry * Rx`: about x first, then y, then z.
pub open spec fn rotation_spec(r: Vec3) -> Mat4 {
    mat_mul(mat_mul(rotation_z_spec(r.z), rotation_y_spec(r.y)), rotation_x_spec(r.x))
}

/// The model matrix `S * T * R`: rotate about the local axes, translate,
/// then scale uniformly.
pub open spec fn model_spec(t: Vec3, s: i32, r: Vec3) -> Mat4 {
    mat_mul(mat_mul(scale_spec(s), translation_spec(t)), rotation_spec(r))
}

/// The look-at view matrix.
pub open spec fn view_spec(eye: Vec3, target: Vec3, up: Vec3) -> Mat4 {
    let f = normalize(sub3(target, eye));
    let r = normalize(cross(f, up));
    let u = cross(r, f);
    Mat4 {
        r0: row4(r.x, r.y, r.z, rescale(-dot3_wide(r, eye))),
        r1: row4(u.x, u.y, u.z, rescale(-dot3_wide(u, eye))),
        r2: row4(neg32(f.x), neg32(f.y), neg32(f.z), rescale(dot3_wide(f, eye))),
        r3: unit_w(),
    }
}

/// Half the vertical field of view, rounded half up.
pub open spec fn half_fov(fov_y: int) -> int {
    (fov_y + 1) / 2
}

/// The symmetric perspective projection.
pub open spec fn projection_spec(fov_y: i32, aspect: i32, near: i32, far: i32) -> Mat4 {
    let h = half_fov(fov_y as int);
    let (s, c) = (sine(h), cosine(h));
    Mat4 {
        r0: row4(c32(floor_div(c * ONE * ONE, aspect * s)), 0, 0, 0),
        r1: row4(0, c32(floor_div(c * ONE, s)), 0, 0),
        r2: row4(
            0,
            0,
            c32(floor_div(-(far + near) * ONE, far - near)),
            c32(floor_div(-(2 * far * near), far - near)),
        ),
        r3: row4(0, 0, -ONE as i32, 0),
    }
}

/// The viewport transform from NDC to pixels, with y pointing down and depth
/// scaled by 255.
pub open spec fn viewport_spec(x: i32, y: i32, width: i32, height: i32) -> Mat4 {
    let hw = width / 2;
    let hh = height / 2;
    Mat4 {
        r0: row4(hw as i32, 0, 0, c32(x + hw)),
        r1: row4(0, c32(-hh), 0, c32(y + hh)),
        r2: row4(0, 0, DEPTH_SCALE, 0),
        r3: unit_w(),
    }
}

/// A matrix from sixteen entries given row by row.
pub fn new_matrix4(
    r0c0: i32, r0c1: i32, r0c2: i32, r0c3: i32,
    r1c0: i32, r1c1: i32, r1c2: i32, r1c3: i32,
    r2c0: i32, r2c1: i32, r2c2: i32, r2c3: i32,
    r3c0: i32, r3c1: i32, r3c2: i32, r3c3: i32,
) -> (m: Mat4)
    ensures
        m == (Mat4 {
            r0: row4(r0c0, r0c1, r0c2, r0c3),
            r1: row4(r1c0, r1c1, r1c2, r1c3),
            r2: row4(r2c0, r2c1, r2c2, r2c3),
            r3: row4(r3c0, r3c1, r3c2, r3c3),
        }),
{
    Mat4 {
        r0: Vec4 { x: r0c0, y: r0c1, z: r0c2, w: r0c3 },
        r1: Vec4 { x: r1c0, y: r1c1, z: r1c2, w: r1c3 },
        r2: Vec4 { x: r2c0, y: r2c1, z: r2c2, w: r2c3 },
        r3: Vec4 { x: r3c0, y: r3c1, z: r3c2, w: r3c3 },
    }
}

/// A transform whose upper-left 3x3 block is given row by row, with no
/// translation and a homogeneous last row.
pub fn new_matrix3(
    r0c0: i32, r0c1: i32, r0c2: i32,
    r1c0: i32, r1c1: i32, r1c2: i32,
    r2c0: i32, r2c1: i32, r2c2: i32,
) -> (m: Mat4)
    ensures
        m == (Mat4 {
            r0: row4(r0c0, r0c1, r0c2, 0),
            r1: row4(r1c0, r1c1, r1c2, 0),
            r2: row4(r2c0, r2c1, r2c2, 0),
            r3: unit_w(),
        }),
{
    new_matrix4(
        r0c0, r0c1, r0c2, 0,
        r1c0, r1c1, r1c2, 0,
        r2c0, r2c1, r2c2, 0,
        0, 0, 0, ONE,
    )
}

/// Matrix times homogeneous column vector, row by row.
pub fn multiply_matrix_vector4(matrix: &Mat4, vector: &Vec4) -> (r: Vec4)
    ensures
        r == mat_vec(*matrix, *vector),
{
    Vec4 {
        x: rescale_wide(dot4_exec(&matrix.r0, vector)),
        y: rescale_wide(dot4_exec(&matrix.r1, vector)),
        z: rescale_wide(dot4_exec(&matrix.r2, vector)),
        w: rescale_wide(dot4_exec(&matrix.r3, vector)),
    }
}

fn column(m: &Mat4, j: usize) -> (c: Vec4)
    requires
        j < 4,
    ensures
        j == 0 ==> c == col0(*m),
        j == 1 ==> c == col1(*m),
        j == 2 ==> c == col2(*m),
        j == 3 ==> c == col3(*m),
{
    if j == 0 {
        Vec4 { x: m.r0.x, y: m.r1.x, z: m.r2.x, w: m.r3.x }
    } else if j == 1 {
        Vec4 { x: m.r0.y, y: m.r1.y, z: m.r2.y, w: m.r3.y }
    } else if j == 2 {
        Vec4 { x: m.r0.z, y: m.r1.z, z: m.r2.z, w: m.r3.z }
    } else {
        Vec4 { x: m.r0.w, y: m.r1.w, z: m.r2.w, w: m.r3.w }
    }
}

fn row_product(r: &Vec4, b: &Mat4) -> (p: Vec4)
    ensures
        p == row_times(*r, *b),
{
    Vec4 {
        x: rescale_wide(dot4_exec(r, &column(b, 0))),
        y: rescale_wide(dot4_exec(r, &column(b, 1))),
        z: rescale_wide(dot4_exec(r, &column(b, 2))),
        w: rescale_wide(dot4_exec(r, &column(b, 3))),
    }
}

/// The matrix product `a * b`.
pub fn multiply_matrices(a: &Mat4, b: &Mat4) -> (m: Mat4)
    ensures
        m == mat_mul(*a, *b),
{
    Mat4 {
        r0: row_product(&a.r0, b),
        r1: row_product(&a.r1, b),
        r2: row_product(&a.r2, b),
        r3: row_product(&a.r3, b),
    }
}

fn negate(v: i32) -> (r: i32)
    ensures
        r == neg32(v),
{
    saturate(0 - v as i128)
}

/// The model matrix: rotation by the Euler angles `rotation` (radians, about
/// x, then y, then z), then translation, then uniform scaling.
#[verifier::spinoff_prover]
pub fn create_model_matrix(translation: Vec3, scale: i32, rotation: Vec3) -> (m: Mat4)
    ensures
        m == model_spec(translation, scale, rotation),
{
    let (sin_x, cos_x) = (sin_fixed(rotation.x as i64), cos_fixed(rotation.x as i64));
    let (sin_y, cos_y) = (sin_fixed(rotation.y as i64), cos_fixed(rotation.y as i64));
    let (sin_z, cos_z) = (sin_fixed(rotation.z as i64), cos_fixed(rotation.z as i64));

    let rotation_matrix_x = new_matrix4(
        ONE, 0, 0, 0,
        0, cos_x, negate(sin_x), 0,
        0, sin_x, cos_x, 0,
        0, 0, 0, ONE,
    );
    let rotation_matrix_y = new_matrix4(
        cos_y, 0, sin_y, 0,
        0, ONE, 0, 0,
        negate(sin_y), 0, cos_y, 0,
        0, 0, 0, ONE,
    );
    let rotation_matrix_z = new_matrix4(
        cos_z, negate(sin_z), 0, 0,
        sin_z, cos_z, 0, 0,
        0, 0, ONE, 0,
        0, 0, 0, ONE,
    );
    let zy = multiply_matrices(&rotation_matrix_z, &rotation_matrix_y);
    let rotation_matrix = multiply_matrices(&zy, &rotation_matrix_x);

    let scale_matrix = new_matrix4(
        scale, 0, 0, 0,
        0, scale, 0, 0,
        0, 0, scale, 0,
        0, 0, 0, ONE,
    );
    let translation_matrix = new_matrix4(
        ONE, 0, 0, translation.x,
        0, ONE, 0, translation.y,
        0, 0, ONE, translation.z,
        0, 0, 0, ONE,
    );
    let st = multiply_matrices(&scale_matrix, &translation_matrix);
    multiply_matrices(&st, &rotation_matrix)
}

/// The look-at view matrix of a camera at `eye` looking at `target`.
/// A zero-length forward or right vector is used unnormalized.
#[verifier::spinoff_prover]
pub fn create_view_matrix(eye: Vec3, target: Vec3, up: Vec3) -> (m: Mat4)
    ensures
        m == view_spec(eye, target, up),
{
    let forward = vnormalize(&vsub(&target, &eye));
    let right = vnormalize(&vcross(&forward, &up));
    let actual_up = vcross(&right, &forward);
    new_matrix4(
        right.x, right.y, right.z, rescale_wide(0 - dot3_exact(&right, &eye)),
        actual_up.x, actual_up.y, actual_up.z, rescale_wide(0 - dot3_exact(&actual_up, &eye)),
        negate(forward.x), negate(forward.y), negate(forward.z),
            rescale_wide(dot3_exact(&forward, &eye)),
        0, 0, 0, ONE,
    )
}


proof fn lemma_sine_positive(h: int)
    requires
        1 <= h < PI,
    ensures
        sine(h) >= 1,
{
    assert(floor_div(h, 62832) == 0);
    let p = h * (PI - h);
    let pi = PI as int;
    assert(p >= pi - 1 && 4 * p <= pi * pi) by (nonlinear_arith)
        requires
            p == h * (pi - h),
            1 <= h < pi,
    ;
    let n = (ONE as int) * 16 * p;
    let d = 5 * pi * pi - 4 * p;
    assert(n / d >= 1) by (nonlinear_arith)
        requires
            n == 160000 * p,
            d == 5 * pi * pi - 4 * p,
            p >= pi - 1,
            pi == 31416,
            4 * p <= pi * pi,
    ;
}

/// The perspective projection for a vertical field of view `fov_y` (radians),
/// an aspect ratio `aspect` (width over height) and near and far planes.
#[verifier::spinoff_prover]
pub fn create_projection_matrix(fov_y: i32, aspect: i32, near: i32, far: i32) -> (m: Mat4)
    requires
        0 < fov_y < TWO_PI - 1,
        aspect != 0,
        near != far,
    ensures
        m == projection_spec(fov_y, aspect, near, far),
{
    let h: i64 = (fov_y as i64 + 1) / 2;
    proof {
        lemma_sine_positive(h as int);
    }
    let s = sin_fixed(h);
    let c = cos_fixed(h);
    let depth_range = far as i128 - near as i128;
    proof {
        assert(aspect * s != 0) by (nonlinear_arith)
            requires
                aspect != 0,
                s >= 1,
        ;
    }
    let cn = wide_mul(c, ONE);
    assert(-10000 * 10000 <= cn <= 10000 * 10000) by (nonlinear_arith)
        requires
            cn == c * 10000,
            -10000 <= c <= 10000,
    ;
    let m00 = saturate(div_floor(cn * 10000, wide_mul(aspect, s)));
    let m11 = saturate(div_floor(wide_mul(c, ONE), s as i128));
    let m22 = saturate(div_floor(0 - (far as i128 + near as i128) * (ONE as i128), depth_range));
    let m23 = saturate(div_floor(0 - 2 * wide_mul(far, near), depth_range));
    proof {
        let ci = c as int;
        assert(cn * 10000 == ci * ONE * ONE) by (nonlinear_arith)
            requires
                cn == ci * 10000,
        ;
        assert(2 * (far * near) == 2 * far * near) by (nonlinear_arith);
    }
    new_matrix4(
        m00, 0, 0, 0,
        0, m11, 0, 0,
        0, 0, m22, m23,
        0, 0, 0 - ONE, 0,
    )
}

/// The viewport transform for a viewport at `(x, y)` of the given size.
pub fn create_viewport_matrix(x: i32, y: i32, width: i32, height: i32) -> (m: Mat4)
    ensures
        m == viewport_spec(x, y, width, height),
{
    let half_width = div_floor(width as i128, 2) as i32;
    let half_height = div_floor(height as i128, 2) as i32;
    new_matrix4(
        half_width, 0, 0, saturate(x as i128 + half_width as i128),
        0, negate(half_height), 0, saturate(y as i128 + half_height as i128),
        0, 0, DEPTH_SCALE, 0,
        0, 0, 0, ONE,
    )
}


/// Rescaling a whole multiple of `ONE` gives the multiple back.
pub proof fn lemma_rescale_multiple(k: int)
    requires
        i32::MIN <= k <= i32::MAX,
    ensures
        rescale(k * ONE) == k,
{
    assert((k * 10000) / 10000 == k) by (nonlinear_arith);
}

/// A matrix applied to the point `(0, 0, 0, 1)` gives its last column.
pub proof fn lemma_mat_vec_unit_w(m: Mat4)
    ensures
        mat_vec(m, unit_w()) == col3(m),
{
    lemma_rescale_multiple(m.r0.w as int);
    lemma_rescale_multiple(m.r1.w as int);
    lemma_rescale_multiple(m.r2.w as int);
    lemma_rescale_multiple(m.r3.w as int);
    assert(dot4_wide(m.r0, unit_w()) == m.r0.w * ONE);
    assert(dot4_wide(m.r1, unit_w()) == m.r1.w * ONE);
    assert(dot4_wide(m.r2, unit_w()) == m.r2.w * ONE);
    assert(dot4_wide(m.r3, unit_w()) == m.r3.w * ONE);
}

/// A product whose right factor leaves the homogeneous axis alone keeps the
/// last column of its left factor.
pub proof fn lemma_mat_mul_col3(a: Mat4, b: Mat4)
    requires
        col3(b) == unit_w(),
    ensures
        col3(mat_mul(a, b)) == col3(a),
{
    lemma_rescale_multiple(a.r0.w as int);
    lemma_rescale_multiple(a.r1.w as int);
    lemma_rescale_multiple(a.r2.w as int);
    lemma_rescale_multiple(a.r3.w as int);
    assert(dot4_wide(a.r0, col3(b)) == a.r0.w * ONE);
    assert(dot4_wide(a.r1, col3(b)) == a.r1.w * ONE);
    assert(dot4_wide(a.r2, col3(b)) == a.r2.w * ONE);
    assert(dot4_wide(a.r3, col3(b)) == a.r3.w * ONE);
}

/// With unit scale, the model matrix takes the local origin to the
/// translation itself: rotation and scaling leave the origin where it is.
#[verifier::spinoff_prover]
pub proof fn lemma_model_origin_is_translation(translation: Vec3, scale: i32, rotation: Vec3)
    requires
        scale == ONE,
    ensures
        mat_vec(model_spec(translation, scale, rotation), unit_w())
            == row4(translation.x, translation.y, translation.z, ONE),
{
    let zy = mat_mul(rotation_z_spec(rotation.z), rotation_y_spec(rotation.y));
    lemma_mat_mul_col3(rotation_z_spec(rotation.z), rotation_y_spec(rotation.y));
    lemma_mat_mul_col3(zy, rotation_x_spec(rotation.x));
    let st = mat_mul(scale_spec(scale), translation_spec(translation));
    lemma_mat_mul_col3(st, rotation_spec(rotation));
    lemma_mat_vec_unit_w(model_spec(translation, scale, rotation));
    let t = col3(translation_spec(translation));
    lemma_rescale_multiple(translation.x as int);
    lemma_rescale_multiple(translation.y as int);
    lemma_rescale_multiple(translation.z as int);
    lemma_rescale_multiple(ONE as int);
    let (tx, ty, tz) = (translation.x as int, translation.y as int, translation.z as int);
    assert(t == row4(translation.x, translation.y, translation.z, ONE));
    assert(scale_spec(scale).r0 == row4(ONE, 0, 0, 0));
    assert(scale_spec(scale).r1 == row4(0, ONE, 0, 0));
    assert(scale_spec(scale).r2 == row4(0, 0, ONE, 0));
    assert(scale_spec(scale).r3 == row4(0, 0, 0, ONE));
    assert(ONE * tx + 0 * ty + 0 * tz + 0 * ONE == tx * ONE) by (nonlinear_arith);
    assert(0 * tx + ONE * ty + 0 * tz + 0 * ONE == ty * ONE) by (nonlinear_arith);
    assert(0 * tx + 0 * ty + ONE * tz + 0 * ONE == tz * ONE) by (nonlinear_arith);
    assert(0 * tx + 0 * ty + 0 * tz + ONE * ONE == ONE * ONE) by (nonlinear_arith);
}

/// The viewport of an even-sized screen at the origin takes the NDC corner
/// `(-1, -1)` to the pixel `(0, height)` and the corner `(1, 1)` to
/// `(width, 0)`: y is flipped.
#[verifier::spinoff_prover]
pub proof fn lemma_viewport_corners(width: i32, height: i32, z: i32)
    requires
        width % 2 == 0,
        height % 2 == 0,
    ensures
        mat_vec(viewport_spec(0, 0, width, height), row4(NEG_ONE, NEG_ONE, z, ONE)).x == 0,
        mat_vec(viewport_spec(0, 0, width, height), row4(NEG_ONE, NEG_ONE, z, ONE)).y
            == height,
        mat_vec(viewport_spec(0, 0, width, height), row4(ONE, ONE, z, ONE)).x == width,
        mat_vec(viewport_spec(0, 0, width, height), row4(ONE, ONE, z, ONE)).y == 0,
{
    let hw = width / 2;
    let hh = height / 2;
    let m = viewport_spec(0, 0, width, height);
    let zi = z as int;
    assert(m.r0 == row4(hw as i32, 0, 0, hw as i32));
    assert(m.r1 == row4(0, (-hh) as i32, 0, hh as i32));
    assert(hw * (-10000) + 0 * (-10000) + 0 * zi + hw * 10000 == 0 * 10000) by (nonlinear_arith);
    assert(0 * (-10000) + (-hh) * (-10000) + 0 * zi + hh * 10000 == height * 10000) by (nonlinear_arith)
        requires
            hh == height / 2,
            height % 2 == 0,
    ;
    assert(hw * 10000 + 0 * 10000 + 0 * zi + hw * 10000 == width * 10000) by (nonlinear_arith)
        requires
            hw == width / 2,
            width % 2 == 0,
    ;
    assert(0 * 10000 + (-hh) * 10000 + 0 * zi + hh * 10000 == 0 * 10000) by (nonlinear_arith);
    lemma_rescale_multiple(0);
    lemma_rescale_multiple(width as int);
    lemma_rescale_multiple(height as int);
}

} // verus!
