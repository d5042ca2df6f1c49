use softrender::fixed::{isqrt, ONE};
use softrender::matrix::{
    create_model_matrix, create_projection_matrix, create_view_matrix, create_viewport_matrix,
    multiply_matrices, multiply_matrix_vector4, new_matrix3, new_matrix4, Mat4, NEG_ONE,
};
use softrender::trig::{cos_fixed, sin_fixed, HALF_PI, PI};
use softrender::vector::{vnormalize, Vec3, Vec4};

fn identity() -> Mat4 {
    new_matrix3(ONE, 0, 0, 0, ONE, 0, 0, 0, ONE)
}

#[test]
fn new_matrix4_keeps_rows() {
    let m = new_matrix4(1, 2, 3, 4, 5, 6, 7, 8, 9, 10, 11, 12, 13, 14, 15, 16);
    assert_eq!(m.r0, Vec4::new(1, 2, 3, 4));
    assert_eq!(m.r2, Vec4::new(9, 10, 11, 12));
    assert_eq!(m.r3, Vec4::new(13, 14, 15, 16));
}

#[test]
fn new_matrix3_adds_homogeneous_row() {
    let m = new_matrix3(1, 2, 3, 4, 5, 6, 7, 8, 9);
    assert_eq!(m.r1, Vec4::new(4, 5, 6, 0));
    assert_eq!(m.r3, Vec4::new(0, 0, 0, ONE));
}

#[test]
fn identity_leaves_vector() {
    let v = Vec4::new(12_345, -6_789, 42, ONE);
    assert_eq!(multiply_matrix_vector4(&identity(), &v), v);
}

#[test]
fn matrix_vector_product_floors() {
    // 1.5 * 0.5 + 0.25 * 1 = 1.0; 0.3333 * 0.3333 floors to 0.1110.
    let m = new_matrix4(15_000, 2_500, 0, 0, 3_333, 0, 0, 0, 0, 0, 0, 0, 0, 0, 0, ONE);
    let v = Vec4::new(5_000, ONE, 0, ONE);
    let r = multiply_matrix_vector4(&m, &v);
    assert_eq!(r.x, 10_000);
    let w = multiply_matrix_vector4(&m, &Vec4::new(3_333, 0, 0, 0));
    assert_eq!(w.y, 1_110);
}

#[test]
fn matrix_product_with_identity() {
    let m = new_matrix4(1, 2, 3, 4, 5, 6, 7, 8, 9, 10, 11, 12, 0, 0, 0, ONE);
    assert_eq!(multiply_matrices(&identity(), &m), m);
    assert_eq!(multiply_matrices(&m, &identity()), m);
}

#[test]
fn saturates_instead_of_overflowing() {
    let m = new_matrix3(i32::MAX, 0, 0, 0, ONE, 0, 0, 0, ONE);
    let r = multiply_matrix_vector4(&m, &Vec4::new(2 * ONE, 0, 0, 0));
    assert_eq!(r.x, i32::MAX);
}

#[test]
fn sine_and_cosine_at_quarter_turns() {
    assert_eq!(sin_fixed(0), 0);
    assert_eq!(sin_fixed(HALF_PI), ONE);
    assert_eq!(sin_fixed(PI), 0);
    assert_eq!(sin_fixed(-HALF_PI), -ONE);
    assert_eq!(cos_fixed(0), ONE);
    // sin(pi / 6) = 0.5
    assert_eq!(sin_fixed(5_236), 5_000);
}

#[test]
fn integer_square_root() {
    assert_eq!(isqrt(0), 0);
    assert_eq!(isqrt(15), 3);
    assert_eq!(isqrt(16), 4);
    assert_eq!(isqrt(u128::MAX), u64::MAX as u128);
}

#[test]
fn normalize_unit_length_and_zero() {
    assert_eq!(vnormalize(&Vec3::new(3 * ONE, 0, 4 * ONE)), Vec3::new(6_000, 0, 8_000));
    assert_eq!(vnormalize(&Vec3::new(0, 0, 0)), Vec3::new(0, 0, 0));
}

#[test]
fn model_matrix_takes_origin_to_translation() {
    let t = Vec3::new(12_000, -3_000, 45_000);
    let m = create_model_matrix(t, ONE, Vec3::new(1_234, 5_678, -9_012));
    let r = multiply_matrix_vector4(&m, &Vec4::new(0, 0, 0, ONE));
    assert_eq!(r, Vec4::new(12_000, -3_000, 45_000, ONE));
}

#[test]
fn model_matrix_scales_after_translating() {
    // Scale * Translation: the origin lands on the scaled translation.
    let m = create_model_matrix(Vec3::new(ONE, 0, 0), 2 * ONE, Vec3::new(0, 0, 0));
    let r = multiply_matrix_vector4(&m, &Vec4::new(0, 0, 0, ONE));
    assert_eq!(r, Vec4::new(2 * ONE, 0, 0, ONE));
    // A point at local x = 1 goes to (1 + 1) * 2.
    let p = multiply_matrix_vector4(&m, &Vec4::new(ONE, 0, 0, ONE));
    assert_eq!(p.x, 4 * ONE);
}

#[test]
fn model_matrix_rotates_about_z() {
    let m = create_model_matrix(Vec3::new(0, 0, 0), ONE, Vec3::new(0, 0, HALF_PI as i32));
    let r = multiply_matrix_vector4(&m, &Vec4::new(ONE, 0, 0, ONE));
    assert_eq!(r, Vec4::new(0, ONE, 0, ONE));
}

#[test]
fn view_matrix_looking_down_negative_z() {
    let m = create_view_matrix(Vec3::new(0, 0, 5 * ONE), Vec3::new(0, 0, 0), Vec3::new(0, ONE, 0));
    assert_eq!(m.r0, Vec4::new(ONE, 0, 0, 0));
    assert_eq!(m.r1, Vec4::new(0, ONE, 0, 0));
    assert_eq!(m.r2, Vec4::new(0, 0, ONE, -5 * ONE));
    assert_eq!(m.r3, Vec4::new(0, 0, 0, ONE));
    let origin = multiply_matrix_vector4(&m, &Vec4::new(0, 0, 0, ONE));
    assert_eq!(origin, Vec4::new(0, 0, -5 * ONE, ONE));
}

#[test]
fn projection_matrix_entries() {
    // 60 degrees, aspect 4:3, near 0.1, far 100.
    let m = create_projection_matrix(10_472, 13_333, 1_000, 1_000_000);
    assert_eq!(m.r0, Vec4::new(12_972, 0, 0, 0));
    assert_eq!(m.r1, Vec4::new(0, 17_296, 0, 0));
    assert_eq!(m.r2, Vec4::new(0, 0, -10_021, -2_003));
    assert_eq!(m.r3, Vec4::new(0, 0, -ONE, 0));
}

#[test]
fn viewport_maps_ndc_corners_with_y_flip() {
    let m = create_viewport_matrix(0, 0, 800 * ONE, 600 * ONE);
    let low = multiply_matrix_vector4(&m, &Vec4::new(NEG_ONE, NEG_ONE, 0, ONE));
    assert_eq!((low.x, low.y), (0, 600 * ONE));
    let high = multiply_matrix_vector4(&m, &Vec4::new(ONE, ONE, 0, ONE));
    assert_eq!((high.x, high.y), (800 * ONE, 0));
}

#[test]
fn viewport_scales_depth_by_255() {
    let m = create_viewport_matrix(0, 0, 800 * ONE, 600 * ONE);
    let r = multiply_matrix_vector4(&m, &Vec4::new(0, 0, 5_000, ONE));
    assert_eq!(r.z, 1_275_000);
    assert_eq!((r.x, r.y), (400 * ONE, 300 * ONE));
}
