//! Triangle rasterization: bounding box, barycentric inside test, per-pixel
//! interpolation and Lambertian lighting.
//!
//! Screen positions lie on the fixed-point grid, so the signed area and the
//! edge functions are exact integers. Barycentric weights are kept as the
//! three edge values over the signed area; a weight is non-negative exactly
//! when its edge value has the sign of the area.
use vstd::prelude::*;
use crate::fixed::{c32, div_floor, fixed_mul, floor_div, fmul, saturate, ONE};
use crate::fragment::Fragment;
use crate::light::Light;
use crate::vector::{dot, dot3, normalize, sub3, vnormalize, vsub, Vec3};
use crate::vertex::Vertex;

verus! {

/// Channel value of the mid-grey base colour.
pub const BASE_GREY: i32 = 5_000;

/// Barycentric weights of a sample point: weight `i` is `ei / area`.
#[derive(Clone, Copy, Debug, PartialEq, Eq, Structural)]
pub struct Barycentric {
    pub e1: i128,
    pub e2: i128,
    pub e3: i128,
    pub area: i128,
}

/// Twice the signed area of the screen-space triangle `a b c`.
pub open spec fn signed_area(a: Vec3, b: Vec3, c: Vec3) -> int {
    (b.y - c.y) * (a.x - c.x) + (c.x - b.x) * (a.y - c.y)
}

pub open spec fn edge1(px: int, py: int, b: Vec3, c: Vec3) -> int {
    (b.y - c.y) * (px - c.x) + (c.x - b.x) * (py - c.y)
}

pub open spec fn edge2(px: int, py: int, a: Vec3, c: Vec3) -> int {
    (c.y - a.y) * (px - c.x) + (a.x - c.x) * (py - c.y)
}

/// The barycentric numerators and denominator of `(px, py)`; a triangle of
/// zero area gives the weights `(-1, -1, -1)`, which no inside test accepts.
pub open spec fn bary_spec(px: int, py: int, a: Vec3, b: Vec3, c: Vec3) -> (int, int, int, int) {
    let area = signed_area(a, b, c);
    if area == 0 {
        (-1, -1, -1, 1)
    } else {
        let e1 = edge1(px, py, b, c);
        let e2 = edge2(px, py, a, c);
        (e1, e2, area - e1 - e2, area)
    }
}

pub open spec fn bary_of(w: Barycentric) -> (int, int, int, int) {
    (w.e1 as int, w.e2 as int, w.e3 as int, w.area as int)
}

/// All three weights are non-negative (edges included).
pub open spec fn inside(w: (int, int, int, int)) -> bool {
    ||| (w.3 > 0 && w.0 >= 0 && w.1 >= 0 && w.2 >= 0)
    ||| (w.3 < 0 && w.0 <= 0 && w.1 <= 0 && w.2 <= 0)
}

/// The centre of pixel `i` on the fixed-point grid.
pub open spec fn center(i: int) -> int {
    i * ONE + ONE / 2
}

pub open spec fn min3(a: int, b: int, c: int) -> int {
    if a <= b && a <= c { a } else if b <= c { b } else { c }
}

pub open spec fn max3(a: int, b: int, c: int) -> int {
    if a >= b && a >= c { a } else if b >= c { b } else { c }
}

/// The pixel bounding box: floor of the least and ceiling of the greatest
/// coordinate.
pub open spec fn box_min_x(v1: Vertex, v2: Vertex, v3: Vertex) -> int {
    floor_div(min3(v1.transformed_position.x as int, v2.transformed_position.x as int, v3.transformed_position.x as int), ONE as int)
}

pub open spec fn box_max_x(v1: Vertex, v2: Vertex, v3: Vertex) -> int {
    -floor_div(-max3(v1.transformed_position.x as int, v2.transformed_position.x as int, v3.transformed_position.x as int), ONE as int)
}

pub open spec fn box_min_y(v1: Vertex, v2: Vertex, v3: Vertex) -> int {
    floor_div(min3(v1.transformed_position.y as int, v2.transformed_position.y as int, v3.transformed_position.y as int), ONE as int)
}

pub open spec fn box_max_y(v1: Vertex, v2: Vertex, v3: Vertex) -> int {
    -floor_div(-max3(v1.transformed_position.y as int, v2.transformed_position.y as int, v3.transformed_position.y as int), ONE as int)
}

pub open spec fn in_box(v1: Vertex, v2: Vertex, v3: Vertex, x: int, y: int) -> bool {
    &&& box_min_x(v1, v2, v3) <= x <= box_max_x(v1, v2, v3)
    &&& box_min_y(v1, v2, v3) <= y <= box_max_y(v1, v2, v3)
}

/// The weights of the centre of pixel `(x, y)`.
pub open spec fn pixel_bary(v1: Vertex, v2: Vertex, v3: Vertex, x: int, y: int) -> (int, int, int, int) {
    bary_spec(center(x), center(y), v1.transformed_position, v2.transformed_position, v3.transformed_position)
}

/// The rasterizer accepts pixel `(x, y)`.
pub open spec fn accepted(v1: Vertex, v2: Vertex, v3: Vertex, x: int, y: int) -> bool {
    in_box(v1, v2, v3, x, y) && inside(pixel_bary(v1, v2, v3, x, y))
}

/// Barycentric interpolation of one attribute, floored and saturated.
pub open spec fn interp(w: (int, int, int, int), a: int, b: int, c: int) -> i32 {
    c32(floor_div(w.0 * a + w.1 * b + w.2 * c, w.3))
}

pub open spec fn interp3(w: (int, int, int, int), a: Vec3, b: Vec3, c: Vec3) -> Vec3 {
    Vec3 {
        x: interp(w, a.x as int, b.x as int, c.x as int),
        y: interp(w, a.y as int, b.y as int, c.y as int),
        z: interp(w, a.z as int, b.z as int, c.z as int),
    }
}

/// Lambertian intensity: the cosine between the unit normal and the unit
/// direction to the light, or zero where it is negative.
pub open spec fn lambert(normal: Vec3, to_light: Vec3) -> int {
    let d = dot3(normalize(normal), normalize(to_light));
    if d > 0 { d as int } else { 0 }
}

/// The fragment emitted for an accepted pixel.
pub open spec fn fragment_at(v1: Vertex, v2: Vertex, v3: Vertex, light: Light, x: int, y: int) -> Fragment {
    let w = pixel_bary(v1, v2, v3, x, y);
    let n = interp3(w, v1.transformed_normal, v2.transformed_normal, v3.transformed_normal);
    let p = interp3(w, v1.position, v2.position, v3.position);
    let i = lambert(n, sub3(light.position, p));
    let g = fmul(BASE_GREY as int, i);
    Fragment {
        x: x as i32,
        y: y as i32,
        color: Vec3 { x: g, y: g, z: g },
        depth: interp(w, v1.transformed_position.z as int, v2.transformed_position.z as int, v3.transformed_position.z as int),
    }
}

/// Row-major order of pixels.
pub open spec fn before(ay: int, ax: int, by: int, bx: int) -> bool {
    ay < by || (ay == by && ax < bx)
}

/// `r` holds one fragment for each accepted pixel, in row-major order.
pub open spec fn rasterized(v1: Vertex, v2: Vertex, v3: Vertex, light: Light, r: Seq<Fragment>) -> bool {
    &&& forall|i: int| 0 <= i < r.len() ==> accepted(v1, v2, v3, r[i].x as int, r[i].y as int)
        && r[i] == fragment_at(v1, v2, v3, light, r[i].x as int, r[i].y as int)
    &&& forall|i: int, j: int| 0 <= i < j < r.len() ==> before(r[i].y as int, r[i].x as int, r[j].y as int, r[j].x as int)
    &&& forall|x: int, y: int| accepted(v1, v2, v3, x, y) ==>
        exists|i: int| 0 <= i < r.len() && r[i].x == x && r[i].y == y
}

proof fn lemma_wide_product(a: int, b: int)
    requires
        -0x4_0000_0000 <= a <= 0x4_0000_0000,
        -0x4_0000_0000 <= b <= 0x4_0000_0000,
    ensures
        -0x10_0000_0000_0000_0000 <= a * b <= 0x10_0000_0000_0000_0000,
{
    assert(-0x10_0000_0000_0000_0000 <= a * b <= 0x10_0000_0000_0000_0000) by (nonlinear_arith)
        requires
            -0x4_0000_0000 <= a <= 0x4_0000_0000,
            -0x4_0000_0000 <= b <= 0x4_0000_0000,
    ;
}

proof fn lemma_weighted_bound(e: int, v: int)
    requires
        -0x100_0000_0000_0000_0000 <= e <= 0x100_0000_0000_0000_0000,
        i32::MIN <= v <= i32::MAX,
    ensures
        -0x100_0000_0000_0000_0000_0000_0000 <= e * v <= 0x100_0000_0000_0000_0000_0000_0000,
{
    assert(-0x100_0000_0000_0000_0000_0000_0000 <= e * v <= 0x100_0000_0000_0000_0000_0000_0000)
        by (nonlinear_arith)
        requires
            -0x100_0000_0000_0000_0000 <= e <= 0x100_0000_0000_0000_0000,
            -0x8000_0000 <= v <= 0x7fff_ffff,
    ;
}

/// Barycentric weights of the point `(p_x, p_y)` (fixed-point screen
/// coordinates) in the triangle `a b c`.
#[verifier::spinoff_prover]
pub fn barycentric_coordinates(p_x: i64, p_y: i64, a: &Vertex, b: &Vertex, c: &Vertex) -> (w: Barycentric)
    requires
        -0x3_0000_0000 <= p_x <= 0x3_0000_0000,
        -0x3_0000_0000 <= p_y <= 0x3_0000_0000,
    ensures
        bary_of(w) == bary_spec(p_x as int, p_y as int, a.transformed_position, b.transformed_position, c.transformed_position),
        -0x100_0000_0000_0000_0000 <= w.e1 <= 0x100_0000_0000_0000_0000,
        -0x100_0000_0000_0000_0000 <= w.e2 <= 0x100_0000_0000_0000_0000,
        -0x100_0000_0000_0000_0000 <= w.e3 <= 0x100_0000_0000_0000_0000,
        -0x100_0000_0000_0000_0000 <= w.area <= 0x100_0000_0000_0000_0000,
        w.area != 0,
{
    let (ax, ay) = (a.transformed_position.x as i128, a.transformed_position.y as i128);
    let (bx, by) = (b.transformed_position.x as i128, b.transformed_position.y as i128);
    let (cx, cy) = (c.transformed_position.x as i128, c.transformed_position.y as i128);
    let (px, py) = (p_x as i128, p_y as i128);
    proof {
        lemma_wide_product(by - cy, ax - cx);
        lemma_wide_product(cx - bx, ay - cy);
        lemma_wide_product(by - cy, px - cx);
        lemma_wide_product(cx - bx, py - cy);
        lemma_wide_product(cy - ay, px - cx);
        lemma_wide_product(ax - cx, py - cy);
    }
    let area = (by - cy) * (ax - cx) + (cx - bx) * (ay - cy);
    if area == 0 {
        return Barycentric { e1: -1, e2: -1, e3: -1, area: 1 };
    }
    let e1 = (by - cy) * (px - cx) + (cx - bx) * (py - cy);
    let e2 = (cy - ay) * (px - cx) + (ax - cx) * (py - cy);
    Barycentric { e1, e2, e3: area - e1 - e2, area }
}

fn is_inside(w: &Barycentric) -> (r: bool)
    ensures
        r == inside(bary_of(*w)),
{
    (w.area > 0 && w.e1 >= 0 && w.e2 >= 0 && w.e3 >= 0)
        || (w.area < 0 && w.e1 <= 0 && w.e2 <= 0 && w.e3 <= 0)
}

fn interpolate(w: &Barycentric, a: i32, b: i32, c: i32) -> (r: i32)
    requires
        -0x100_0000_0000_0000_0000 <= w.e1 <= 0x100_0000_0000_0000_0000,
        -0x100_0000_0000_0000_0000 <= w.e2 <= 0x100_0000_0000_0000_0000,
        -0x100_0000_0000_0000_0000 <= w.e3 <= 0x100_0000_0000_0000_0000,
        -0x100_0000_0000_0000_0000 <= w.area <= 0x100_0000_0000_0000_0000,
        w.area != 0,
    ensures
        r == interp(bary_of(*w), a as int, b as int, c as int),
{
    proof {
        lemma_weighted_bound(w.e1 as int, a as int);
        lemma_weighted_bound(w.e2 as int, b as int);
        lemma_weighted_bound(w.e3 as int, c as int);
    }
    let s = w.e1 * (a as i128) + w.e2 * (b as i128) + w.e3 * (c as i128);
    saturate(div_floor(s, w.area))
}

fn interpolate3(w: &Barycentric, a: &Vec3, b: &Vec3, c: &Vec3) -> (r: Vec3)
    requires
        -0x100_0000_0000_0000_0000 <= w.e1 <= 0x100_0000_0000_0000_0000,
        -0x100_0000_0000_0000_0000 <= w.e2 <= 0x100_0000_0000_0000_0000,
        -0x100_0000_0000_0000_0000 <= w.e3 <= 0x100_0000_0000_0000_0000,
        -0x100_0000_0000_0000_0000 <= w.area <= 0x100_0000_0000_0000_0000,
        w.area != 0,
    ensures
        r == interp3(bary_of(*w), *a, *b, *c),
{
    Vec3 {
        x: interpolate(w, a.x, b.x, c.x),
        y: interpolate(w, a.y, b.y, c.y),
        z: interpolate(w, a.z, b.z, c.z),
    }
}


fn lambert_exec(normal: &Vec3, to_light: &Vec3) -> (r: i32)
    ensures
        r == lambert(*normal, *to_light),
{
    let d = dot(&vnormalize(normal), &vnormalize(to_light));
    if d > 0 {
        d
    } else {
        0
    }
}

fn shade_pixel(v1: &Vertex, v2: &Vertex, v3: &Vertex, light: &Light, x: i64, y: i64, w: &Barycentric) -> (f: Fragment)
    requires
        i32::MIN <= x <= i32::MAX,
        i32::MIN <= y <= i32::MAX,
        bary_of(*w) == pixel_bary(*v1, *v2, *v3, x as int, y as int),
        -0x100_0000_0000_0000_0000 <= w.e1 <= 0x100_0000_0000_0000_0000,
        -0x100_0000_0000_0000_0000 <= w.e2 <= 0x100_0000_0000_0000_0000,
        -0x100_0000_0000_0000_0000 <= w.e3 <= 0x100_0000_0000_0000_0000,
        -0x100_0000_0000_0000_0000 <= w.area <= 0x100_0000_0000_0000_0000,
        w.area != 0,
    ensures
        f == fragment_at(*v1, *v2, *v3, *light, x as int, y as int),
{
    let n = interpolate3(w, &v1.transformed_normal, &v2.transformed_normal, &v3.transformed_normal);
    let p = interpolate3(w, &v1.position, &v2.position, &v3.position);
    let intensity = lambert_exec(&n, &vsub(&light.position, &p));
    let g = fixed_mul(BASE_GREY, intensity);
    let depth = interpolate(w, v1.transformed_position.z, v2.transformed_position.z, v3.transformed_position.z);
    Fragment::new(x as i32, y as i32, Vec3 { x: g, y: g, z: g }, depth)
}

fn min3_exec(a: i32, b: i32, c: i32) -> (r: i32)
    ensures
        r == min3(a as int, b as int, c as int),
{
    if a <= b && a <= c { a } else if b <= c { b } else { c }
}

fn max3_exec(a: i32, b: i32, c: i32) -> (r: i32)
    ensures
        r == max3(a as int, b as int, c as int),
{
    if a >= b && a >= c { a } else if b >= c { b } else { c }
}

/// The pixel holding the fixed-point coordinate `v`, and the least pixel
/// boundary at or above it.
fn pixel_floor_ceil(lo: i32, hi: i32) -> (r: (i64, i64))
    ensures
        r.0 == floor_div(lo as int, ONE as int),
        r.1 == -floor_div(-(hi as int), ONE as int),
        -214749 <= r.0 <= 214749,
        -214749 <= r.1 <= 214749,
{
    let f = div_floor(lo as i128, ONE as i128);
    let c = 0 - div_floor(0 - hi as i128, ONE as i128);
    (f as i64, c as i64)
}

pub open spec fn all_ok(v1: Vertex, v2: Vertex, v3: Vertex, light: Light, r: Seq<Fragment>) -> bool {
    forall|i: int| 0 <= i < r.len() ==> accepted(v1, v2, v3, r[i].x as int, r[i].y as int)
        && r[i] == fragment_at(v1, v2, v3, light, r[i].x as int, r[i].y as int)
}

pub open spec fn sorted(r: Seq<Fragment>) -> bool {
    forall|i: int, j: int| 0 <= i < j < r.len() ==> before(r[i].y as int, r[i].x as int, r[j].y as int, r[j].x as int)
}

pub open spec fn all_before(r: Seq<Fragment>, y: int, x: int) -> bool {
    forall|i: int| 0 <= i < r.len() ==> before(r[i].y as int, r[i].x as int, y, x)
}

pub open spec fn has_pixel(r: Seq<Fragment>, x: int, y: int) -> bool {
    exists|i: int| 0 <= i < r.len() && r[i].x == x && r[i].y == y
}

pub open spec fn covers_before(v1: Vertex, v2: Vertex, v3: Vertex, r: Seq<Fragment>, y: int, x: int) -> bool {
    forall|px: int, py: int| accepted(v1, v2, v3, px, py) && before(py, px, y, x) ==> #[trigger] has_pixel(r, px, py)
}

/// Rasterizes the triangle `v1 v2 v3`: one fragment for each pixel of the
/// bounding box whose centre has non-negative barycentric weights, in
/// row-major order, lit by `light`.
#[verifier::spinoff_prover]
pub fn triangle(v1: &Vertex, v2: &Vertex, v3: &Vertex, light: &Light) -> (r: Vec<Fragment>)
    ensures
        rasterized(*v1, *v2, *v3, *light, r@),
{
    let (t1, t2, t3) = (v1.transformed_position, v2.transformed_position, v3.transformed_position);
    let (min_x, max_x) = pixel_floor_ceil(min3_exec(t1.x, t2.x, t3.x), max3_exec(t1.x, t2.x, t3.x));
    let (min_y, max_y) = pixel_floor_ceil(min3_exec(t1.y, t2.y, t3.y), max3_exec(t1.y, t2.y, t3.y));
    let ghost (gv1, gv2, gv3, gl) = (*v1, *v2, *v3, *light);
    let mut fragments: Vec<Fragment> = Vec::new();
    let mut y: i64 = min_y;
    while y <= max_y
        invariant
            gv1 == *v1 && gv2 == *v2 && gv3 == *v3 && gl == *light,
            min_x == box_min_x(gv1, gv2, gv3),
            max_x == box_max_x(gv1, gv2, gv3),
            min_y == box_min_y(gv1, gv2, gv3),
            max_y == box_max_y(gv1, gv2, gv3),
            -214749 <= min_x <= 214749,
            -214749 <= max_x <= 214749,
            -214749 <= min_y <= 214749,
            -214749 <= max_y <= 214749,
            min_y <= y <= max_y + 1 || (y == min_y && min_y > max_y),
            all_ok(gv1, gv2, gv3, gl, fragments@),
            sorted(fragments@),
            all_before(fragments@, y as int, min_x as int),
            covers_before(gv1, gv2, gv3, fragments@, y as int, min_x as int),
        decreases max_y + 1 - y,
    {
        let mut x: i64 = min_x;
        while x <= max_x
            invariant
                gv1 == *v1 && gv2 == *v2 && gv3 == *v3 && gl == *light,
                min_x == box_min_x(gv1, gv2, gv3),
                max_x == box_max_x(gv1, gv2, gv3),
                min_y == box_min_y(gv1, gv2, gv3),
                max_y == box_max_y(gv1, gv2, gv3),
                -214749 <= min_x <= 214749,
                -214749 <= max_x <= 214749,
                min_y <= y <= max_y,
                -214749 <= max_y <= 214749,
                min_x <= x <= max_x + 1 || (x == min_x && min_x > max_x),
                all_ok(gv1, gv2, gv3, gl, fragments@),
                sorted(fragments@),
                all_before(fragments@, y as int, x as int),
                covers_before(gv1, gv2, gv3, fragments@, y as int, x as int),
            decreases max_x + 1 - x,
        {
            let w = barycentric_coordinates(x * 10000 + 5000, y * 10000 + 5000, v1, v2, v3);
            let ghost old_r = fragments@;
            if is_inside(&w) {
                let f = shade_pixel(v1, v2, v3, light, x, y, &w);
                fragments.push(f);
                proof {
                    let r = fragments@;
                    assert(r[r.len() - 1] == f);
                    assert forall|i: int| 0 <= i < r.len() implies accepted(gv1, gv2, gv3, r[i].x as int, r[i].y as int)
                        && r[i] == fragment_at(gv1, gv2, gv3, gl, r[i].x as int, r[i].y as int) by {
                        if i < old_r.len() {
                            assert(r[i] == old_r[i]);
                        }
                    }
                    assert forall|i: int, j: int| 0 <= i < j < r.len() implies before(r[i].y as int, r[i].x as int, r[j].y as int, r[j].x as int) by {
                        assert(r[i] == old_r[i]);
                        if j < old_r.len() {
                            assert(r[j] == old_r[j]);
                        }
                    }
                    assert forall|i: int| 0 <= i < r.len() implies before(r[i].y as int, r[i].x as int, y as int, x + 1) by {
                        if i < old_r.len() {
                            assert(r[i] == old_r[i]);
                        }
                    }
                    assert forall|px: int, py: int| accepted(gv1, gv2, gv3, px, py) && before(py, px, y as int, x + 1)
                        implies #[trigger] has_pixel(r, px, py) by {
                        if before(py, px, y as int, x as int) {
                            assert(has_pixel(old_r, px, py));
                            let i = choose|i: int| 0 <= i < old_r.len() && old_r[i].x == px && old_r[i].y == py;
                            assert(r[i] == old_r[i]);
                        } else {
                            assert(r[r.len() - 1].x == px && r[r.len() - 1].y == py);
                        }
                    }
                }
            } else {
                proof {
                    assert forall|px: int, py: int| accepted(gv1, gv2, gv3, px, py) && before(py, px, y as int, x + 1)
                        implies #[trigger] has_pixel(fragments@, px, py) by {
                        if !before(py, px, y as int, x as int) {
                            assert(px == x && py == y);
                        }
                    }
                }
            }
            x = x + 1;
        }
        proof {
            let r = fragments@;
            assert forall|px: int, py: int| accepted(gv1, gv2, gv3, px, py) && before(py, px, y + 1, min_x as int)
                implies #[trigger] has_pixel(r, px, py) by {
                assert(before(py, px, y as int, x as int));
            }
            assert forall|i: int| 0 <= i < r.len() implies before(r[i].y as int, r[i].x as int, y + 1, min_x as int) by {
                assert(before(r[i].y as int, r[i].x as int, y as int, x as int));
            }
        }
        y = y + 1;
    }
    proof {
        let r = fragments@;
        assert forall|px: int, py: int| accepted(gv1, gv2, gv3, px, py) implies
            exists|i: int| 0 <= i < r.len() && r[i].x == px && r[i].y == py by {
            assert(before(py, px, y as int, min_x as int));
            assert(has_pixel(r, px, py));
        }
    }
    fragments
}


/// At each vertex of a non-degenerate triangle the barycentric weights are
/// `(1, 0, 0)`, `(0, 1, 0)` and `(0, 0, 1)` in vertex order.
#[verifier::spinoff_prover]
pub proof fn lemma_weights_at_vertices(a: Vec3, b: Vec3, c: Vec3)
    requires
        signed_area(a, b, c) != 0,
    ensures
        bary_spec(a.x as int, a.y as int, a, b, c) == (signed_area(a, b, c), 0int, 0int, signed_area(a, b, c)),
        bary_spec(b.x as int, b.y as int, a, b, c) == (0int, signed_area(a, b, c), 0int, signed_area(a, b, c)),
        bary_spec(c.x as int, c.y as int, a, b, c) == (0int, 0int, signed_area(a, b, c), signed_area(a, b, c)),
{
    let (ax, ay, bx, by, cx, cy) = (a.x as int, a.y as int, b.x as int, b.y as int, c.x as int, c.y as int);
    assert(edge2(ax, ay, a, c) == 0) by (nonlinear_arith)
        requires
            edge2(ax, ay, a, c) == (cy - ay) * (ax - cx) + (ax - cx) * (ay - cy),
    ;
    assert(edge1(bx, by, b, c) == 0) by (nonlinear_arith)
        requires
            edge1(bx, by, b, c) == (by - cy) * (bx - cx) + (cx - bx) * (by - cy),
    ;
    assert(edge2(bx, by, a, c) == signed_area(a, b, c)) by (nonlinear_arith)
        requires
            edge2(bx, by, a, c) == (cy - ay) * (bx - cx) + (ax - cx) * (by - cy),
            signed_area(a, b, c) == (by - cy) * (ax - cx) + (cx - bx) * (ay - cy),
    ;
}

/// A triangle whose screen-space vertices are collinear or coincident (zero
/// signed area) yields no fragment.
pub proof fn lemma_degenerate_triangle_is_empty(v1: Vertex, v2: Vertex, v3: Vertex, light: Light, r: Seq<Fragment>)
    requires
        signed_area(v1.transformed_position, v2.transformed_position, v3.transformed_position) == 0,
        rasterized(v1, v2, v3, light, r),
    ensures
        r.len() == 0,
{
    if r.len() > 0 {
        assert(accepted(v1, v2, v3, r[0].x as int, r[0].y as int));
    }
}


proof fn lemma_linear_between(k: int, m: int, t1: int, t2: int, t3: int)
    requires
        t1 <= t2 <= t3,
    ensures
        k * t1 + m >= 0 && k * t3 + m >= 0 ==> k * t2 + m >= 0,
        k * t1 + m <= 0 && k * t3 + m <= 0 ==> k * t2 + m <= 0,
{
    if k >= 0 {
        assert(k * t1 <= k * t2) by (nonlinear_arith)
            requires
                k >= 0,
                t1 <= t2,
        ;
        assert(k * t2 <= k * t3) by (nonlinear_arith)
            requires
                k >= 0,
                t2 <= t3,
        ;
    } else {
        assert(k * t1 >= k * t2) by (nonlinear_arith)
            requires
                k < 0,
                t1 <= t2,
        ;
        assert(k * t2 >= k * t3) by (nonlinear_arith)
            requires
                k < 0,
                t2 <= t3,
        ;
    }
}

/// Scanline form of the inside test: in every row the accepted pixels form
/// one contiguous span.
pub proof fn lemma_rows_are_spans(v1: Vertex, v2: Vertex, v3: Vertex, y: int, xa: int, xb: int, xc: int)
    requires
        accepted(v1, v2, v3, xa, y),
        accepted(v1, v2, v3, xc, y),
        xa <= xb <= xc,
    ensures
        accepted(v1, v2, v3, xb, y),
{
    let (a, b, c) = (v1.transformed_position, v2.transformed_position, v3.transformed_position);
    let area = signed_area(a, b, c);
    let (ax, ay, bx, by, cx, cy) = (a.x as int, a.y as int, b.x as int, b.y as int, c.x as int, c.y as int);
    let py = center(y);
    let (ta, tb, tc) = (center(xa), center(xb), center(xc));
    assert(ta <= tb <= tc);
    let k1 = by - cy;
    let m1 = (cx - bx) * (py - cy) - k1 * cx;
    let k2 = cy - ay;
    let m2 = (ax - cx) * (py - cy) - k2 * cx;
    let k3 = -k1 - k2;
    let m3 = area - m1 - m2;
    assert forall|t: int| #![auto] edge1(t, py, b, c) == k1 * t + m1 && edge2(t, py, a, c) == k2 * t + m2
        && area - edge1(t, py, b, c) - edge2(t, py, a, c) == k3 * t + m3 by {
        assert(edge1(t, py, b, c) == k1 * t + m1) by (nonlinear_arith)
            requires
                edge1(t, py, b, c) == (by - cy) * (t - cx) + (cx - bx) * (py - cy),
                k1 == by - cy,
                m1 == (cx - bx) * (py - cy) - k1 * cx,
        ;
        assert(edge2(t, py, a, c) == k2 * t + m2) by (nonlinear_arith)
            requires
                edge2(t, py, a, c) == (cy - ay) * (t - cx) + (ax - cx) * (py - cy),
                k2 == cy - ay,
                m2 == (ax - cx) * (py - cy) - k2 * cx,
        ;
        assert(area - (k1 * t + m1) - (k2 * t + m2) == k3 * t + m3) by (nonlinear_arith)
            requires
                k3 == -k1 - k2,
                m3 == area - m1 - m2,
        ;
    }
    lemma_linear_between(k1, m1, ta, tb, tc);
    lemma_linear_between(k2, m2, ta, tb, tc);
    lemma_linear_between(k3, m3, ta, tb, tc);
}

} // verus!
