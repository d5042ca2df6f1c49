//! The vertex stage and the procedural fragment shaders.
use vstd::prelude::*;
use crate::fixed::{
    c32, clamp32, div_floor, wide_mul, fdiv, fixed_div, fixed_mul, floor_div, fmul, is_floor_quotient, isqrt,
    lemma_floor_div_is_quotient, saturate, sqrt_floor, ONE,
};
use crate::fragment::Fragment;
use crate::matrix::{mat_vec, multiply_matrix_vector4, Mat4};
use crate::trig::{cos_fixed, cosine, sin_fixed, sine};
use crate::triangle::center;
use crate::uniforms::Uniforms;
use crate::vector::{add3, lift, normalize, scale3, vadd, vnormalize, vscale, xyz, Vec3, Vec4};
use crate::vertex::Vertex;

verus! {

/// World-space position of a vertex: the model matrix applied to its
/// object-space position.
pub open spec fn world_of(v: Vertex, u: Uniforms) -> Vec4 {
    mat_vec(u.model_matrix, lift(v.position, ONE))
}

/// Clip-space position: view, then projection, applied to the world position.
pub open spec fn clip_of(v: Vertex, u: Uniforms) -> Vec4 {
    mat_vec(u.projection_matrix, mat_vec(u.view_matrix, world_of(v, u)))
}

/// The perspective divide; a zero `w` leaves the coordinates as they are.
pub open spec fn perspective_divide(c: Vec4) -> Vec3 {
    if c.w != 0 {
        Vec3 { x: fdiv(c.x as int, c.w as int), y: fdiv(c.y as int, c.w as int), z: fdiv(c.z as int, c.w as int) }
    } else {
        xyz(c)
    }
}

/// Normalized device coordinates of a vertex.
pub open spec fn ndc_of(v: Vertex, u: Uniforms) -> Vec3 {
    perspective_divide(clip_of(v, u))
}

/// Screen-space position of a vertex: the viewport applied to its NDC.
pub open spec fn screen_of(v: Vertex, u: Uniforms) -> Vec3 {
    xyz(mat_vec(u.viewport_matrix, lift(ndc_of(v, u), ONE)))
}

/// A normal as a direction (`w = 0`) through the model matrix, renormalized.
pub open spec fn normal_spec(n: Vec3, model: Mat4) -> Vec3 {
    normalize(xyz(mat_vec(model, lift(n, 0))))
}

/// The vertex with its derived attributes computed from `u`.
pub open spec fn vertex_shader_spec(v: Vertex, u: Uniforms) -> Vertex {
    Vertex {
        transformed_position: screen_of(v, u),
        transformed_normal: normal_spec(v.normal, u.model_matrix),
        world_position: xyz(world_of(v, u)),
        ..v
    }
}

fn transform_normal(normal: &Vec3, model_matrix: &Mat4) -> (r: Vec3)
    ensures
        r == normal_spec(*normal, *model_matrix),
{
    let n4 = Vec4 { x: normal.x, y: normal.y, z: normal.z, w: 0 };
    let t = multiply_matrix_vector4(model_matrix, &n4);
    vnormalize(&t.xyz())
}

/// Maps one vertex through model, view, projection, perspective divide and
/// viewport, and transforms its normal by the model matrix.
#[verifier::spinoff_prover]
pub fn vertex_shader(vertex: &Vertex, uniforms: &Uniforms) -> (r: Vertex)
    ensures
        r == vertex_shader_spec(*vertex, *uniforms),
{
    let position = vertex.position;
    let position_vec4 = Vec4 { x: position.x, y: position.y, z: position.z, w: ONE };
    let world = multiply_matrix_vector4(&uniforms.model_matrix, &position_vec4);
    let view = multiply_matrix_vector4(&uniforms.view_matrix, &world);
    let clip = multiply_matrix_vector4(&uniforms.projection_matrix, &view);
    let ndc = if clip.w != 0 {
        Vec3 {
            x: fixed_div(clip.x, clip.w),
            y: fixed_div(clip.y, clip.w),
            z: fixed_div(clip.z, clip.w),
        }
    } else {
        clip.xyz()
    };
    let ndc_vec4 = Vec4 { x: ndc.x, y: ndc.y, z: ndc.z, w: ONE };
    let screen = multiply_matrix_vector4(&uniforms.viewport_matrix, &ndc_vec4);
    Vertex {
        transformed_position: screen.xyz(),
        transformed_normal: transform_normal(&vertex.normal, &uniforms.model_matrix),
        world_position: world.xyz(),
        ..*vertex
    }
}

/// Where the clip-space `w` is non-zero, each NDC coordinate is the clip
/// coordinate divided by `w`: the floor of the quotient at scale `ONE`, exact
/// wherever it is not saturated.
pub proof fn lemma_ndc_is_clip_over_w(v: Vertex, u: Uniforms)
    requires
        clip_of(v, u).w != 0,
    ensures
        ndc_of(v, u).x == c32(floor_div(clip_of(v, u).x * ONE, clip_of(v, u).w as int)),
        ndc_of(v, u).y == c32(floor_div(clip_of(v, u).y * ONE, clip_of(v, u).w as int)),
        ndc_of(v, u).z == c32(floor_div(clip_of(v, u).z * ONE, clip_of(v, u).w as int)),
        i32::MIN < ndc_of(v, u).x < i32::MAX
            ==> is_floor_quotient(ndc_of(v, u).x as int, clip_of(v, u).x * ONE, clip_of(v, u).w as int),
        i32::MIN < ndc_of(v, u).y < i32::MAX
            ==> is_floor_quotient(ndc_of(v, u).y as int, clip_of(v, u).y * ONE, clip_of(v, u).w as int),
        i32::MIN < ndc_of(v, u).z < i32::MAX
            ==> is_floor_quotient(ndc_of(v, u).z as int, clip_of(v, u).z * ONE, clip_of(v, u).w as int),
{
    let c = clip_of(v, u);
    lemma_floor_div_is_quotient(c.x * ONE, c.w as int);
    lemma_floor_div_is_quotient(c.y * ONE, c.w as int);
    lemma_floor_div_is_quotient(c.z * ONE, c.w as int);
}


/// Screen position of a pixel centre scaled by the shader frequency `k`.
pub open spec fn uv_of(i: int, k: int) -> int {
    clamp32(floor_div(center(i) * k, ONE as int))
}

/// Sine of `u * a + b` (all at scale `ONE`).
pub open spec fn sin_wave(u: int, a: int, b: int) -> int {
    sine(floor_div(u * a, ONE as int) + b)
}

/// Cosine of `u * a + b` (all at scale `ONE`).
pub open spec fn cos_wave(u: int, a: int, b: int) -> int {
    cosine(floor_div(u * a, ONE as int) + b)
}

pub open spec fn abs(v: int) -> int {
    if v < 0 { -v } else { v }
}

/// Three bands: above `hi`, above `lo`, the rest.
pub open spec fn band3(p: int, hi: int, lo: int, top: Vec3, middle: Vec3, bottom: Vec3) -> Vec3 {
    if p > hi { top } else if p > lo { middle } else { bottom }
}

pub open spec fn rgb(r: i32, g: i32, b: i32) -> Vec3 {
    Vec3 { x: r, y: g, z: b }
}

/// Oceans, land and mountains, with clouds, brightened by 1.2.
pub open spec fn earth_spec(f: Fragment) -> Vec3 {
    let (u, v) = (uv_of(f.x as int, 150), uv_of(f.y as int, 150));
    let n1 = fmul(sin_wave(u, 30000, 0), cos_wave(v, 25000, 0));
    let n2 = fmul(cos_wave(u, 50000, 1_000_000), sin_wave(v, 40000, 500_000));
    let pattern = abs(n1 + fmul(n2 as int, 5000));
    let base = band3(pattern, 7000, 4000, rgb(4000, 3500, 2500), rgb(2500, 5000, 2000), rgb(500, 3000, 5500));
    let cloud = abs(fmul(sin_wave(u, 70000, 2_000_000), cos_wave(v, 60000, 1_500_000)) as int);
    let lit = if cloud > 7500 { add3(scale3(base, 7000), rgb(3000, 3000, 3000)) } else { base };
    scale3(lit, 12000)
}

/// Distance from the storm centre, with the vertical axis stretched twice.
pub open spec fn storm_distance(u: int, v: int) -> int {
    let (sx, sy) = (clamp32(u - 3_000_000), clamp32(v - 2_500_000));
    sqrt_floor(sx * sx + 4 * (sy * sy))
}

/// Band value of the horizontal stripes plus their turbulence.
pub open spec fn jupiter_band(u: int, v: int) -> int {
    let band = fmul(sin_wave(v, 150_000, 0), 5000) + 5000;
    let turbulence = fmul(
        fmul(
            sine(fmul(u, 100_000) + fmul(v, 30_000)),
            cosine(fmul(u, 70_000) - fmul(v, 50_000)),
        ) as int,
        3000,
    );
    band + turbulence
}

/// The storm spot's red, fading linearly to nothing at distance 50.
pub open spec fn storm_spot(d: int) -> Vec3 {
    if d < 500_000 { scale3(rgb(4000, 1000, 500), ONE - d / 50) } else { rgb(0, 0, 0) }
}

/// Bands, turbulence and a red storm spot, brightened by 1.1.
pub open spec fn jupiter_spec(f: Fragment) -> Vec3 {
    let (u, v) = (uv_of(f.x as int, 100), uv_of(f.y as int, 100));
    let spot = storm_spot(storm_distance(u, v));
    let base = band3(jupiter_band(u, v), 6600, 3300, rgb(8000, 6000, 4000), rgb(7000, 4000, 2000), rgb(6000, 3500, 1500));
    scale3(add3(base, spot), 11000)
}

/// Water, grass and forest with a green glow, brightened by 1.4.
pub open spec fn namek_spec(f: Fragment) -> Vec3 {
    let (u, v) = (uv_of(f.x as int, 120), uv_of(f.y as int, 120));
    let n1 = fmul(sin_wave(u, 40000, 0), cos_wave(v, 35000, 0));
    let n2 = fmul(cos_wave(u, 60000, 500_000), sin_wave(v, 55000, 300_000));
    let pattern = abs(n1 + fmul(n2 as int, 6000));
    let base = band3(pattern, 6500, 3500, rgb(2000, 6500, 2000), rgb(4000, 8500, 4000), rgb(1000, 5000, 4000));
    scale3(add3(base, rgb(600, 1000, 600)), 14000)
}

/// Yellow and orange turbulence, brightened by 2.5.
pub open spec fn sun_spec(f: Fragment) -> Vec3 {
    let (u, v) = (uv_of(f.x as int, 80), uv_of(f.y as int, 80));
    let n1 = fmul(sin_wave(u, 30000, 0), cos_wave(v, 28000, 0));
    let n2 = fmul(cos_wave(u, 55000, 1_000_000), sin_wave(v, 45000, 800_000));
    let n3 = sine(fmul(u, 80000) - fmul(v, 60000));
    let turbulence = abs(n1 + fmul(n2 as int, 5000) + fmul(n3, 3000));
    let base = band3(turbulence, 7000, 4000, rgb(ONE, ONE, 6000), rgb(ONE, 7000, 2000), rgb(ONE, 5000, 1000));
    scale3(base, 25000)
}

fn uv_coord(i: i32, k: i32) -> (r: i32)
    requires
        0 < k <= ONE,
    ensures
        r == uv_of(i as int, k as int),
{
    let c = (i as i128) * 10000 + 5000;
    proof {
        assert(-0x1000_0000_0000_0000 <= c * k <= 0x1000_0000_0000_0000) by (nonlinear_arith)
            requires
                -0x8000_0000 * 10000 <= c <= 0x8000_0000 * 10000,
                0 < k <= 10000,
        ;
    }
    saturate(div_floor(c * (k as i128), 10000))
}

fn sin_wave_exec(u: i32, a: i32, b: i32) -> (r: i32)
    ensures
        r == sin_wave(u as int, a as int, b as int),
        -ONE <= r <= ONE,
{
    let t = div_floor(wide_mul(u, a), 10000);
    sin_fixed((t + b as i128) as i64)
}

fn cos_wave_exec(u: i32, a: i32, b: i32) -> (r: i32)
    ensures
        r == cos_wave(u as int, a as int, b as int),
        -ONE <= r <= ONE,
{
    let t = div_floor(wide_mul(u, a), 10000);
    cos_fixed((t + b as i128) as i64)
}

fn abs_exec(v: i64) -> (r: i64)
    requires
        v > i64::MIN,
    ensures
        r == abs(v as int),
{
    if v < 0 { 0 - v } else { v }
}

fn band3_exec(p: i64, hi: i64, lo: i64, top: Vec3, middle: Vec3, bottom: Vec3) -> (r: Vec3)
    ensures
        r == band3(p as int, hi as int, lo as int, top, middle, bottom),
{
    if p > hi { top } else if p > lo { middle } else { bottom }
}

/// Oceans, land and mountains with clouds over them.
#[verifier::spinoff_prover]
pub fn earth_shader(fragment: &Fragment, _uniforms: &Uniforms) -> (c: Vec3)
    ensures
        c == earth_spec(*fragment),
{
    let (u, v) = (uv_coord(fragment.x, 150), uv_coord(fragment.y, 150));
    let n1 = fixed_mul(sin_wave_exec(u, 30000, 0), cos_wave_exec(v, 25000, 0));
    let n2 = fixed_mul(cos_wave_exec(u, 50000, 1_000_000), sin_wave_exec(v, 40000, 500_000));
    let pattern = abs_exec(n1 as i64 + fixed_mul(n2, 5000) as i64);
    let base = band3_exec(pattern, 7000, 4000, Vec3::new(4000, 3500, 2500), Vec3::new(2500, 5000, 2000), Vec3::new(500, 3000, 5500));
    let cloud = abs_exec(fixed_mul(sin_wave_exec(u, 70000, 2_000_000), cos_wave_exec(v, 60000, 1_500_000)) as i64);
    let lit = if cloud > 7500 {
        vadd(&vscale(&base, 7000), &Vec3::new(3000, 3000, 3000))
    } else {
        base
    };
    vscale(&lit, 12000)
}

fn storm_distance_exec(u: i32, v: i32) -> (d: i64)
    ensures
        d == storm_distance(u as int, v as int),
        d >= 0,
{
    let sx = saturate(u as i128 - 3_000_000);
    let sy = saturate(v as i128 - 2_500_000);
    proof {
        assert(0 <= (sx as int) * (sx as int) <= 0x4000_0000_0000_0000) by (nonlinear_arith)
            requires
                -0x8000_0000 <= sx < 0x8000_0000,
        ;
        assert(0 <= (sy as int) * (sy as int) <= 0x4000_0000_0000_0000) by (nonlinear_arith)
            requires
                -0x8000_0000 <= sy < 0x8000_0000,
        ;
    }
    let n = (sx as i128) * (sx as i128) + 4 * ((sy as i128) * (sy as i128));
    let r = isqrt(n as u128);
    proof {
        assert(r < 0x1_0000_0000_0000) by (nonlinear_arith)
            requires
                r * r <= n,
                n <= 0x5_0000_0000_0000_0000,
        ;
    }
    r as i64
}

fn jupiter_band_exec(u: i32, v: i32) -> (b: i64)
    ensures
        b == jupiter_band(u as int, v as int),
{
    let band = fixed_mul(sin_wave_exec(v, 150_000, 0), 5000) as i64 + 5000;
    let a1 = fixed_mul(u, 100_000) as i64 + fixed_mul(v, 30_000) as i64;
    let a2 = fixed_mul(u, 70_000) as i64 - fixed_mul(v, 50_000) as i64;
    let turbulence = fixed_mul(fixed_mul(sin_fixed(a1), cos_fixed(a2)), 3000) as i64;
    band + turbulence
}

fn storm_spot_exec(d: i64) -> (c: Vec3)
    requires
        d >= 0,
    ensures
        c == storm_spot(d as int),
{
    if d < 500_000 {
        vscale(&Vec3::new(4000, 1000, 500), (10000 - d / 50) as i32)
    } else {
        Vec3::new(0, 0, 0)
    }
}

/// Bands, turbulence and a red storm spot.
#[verifier::spinoff_prover]
pub fn jupiter_shader(fragment: &Fragment, _uniforms: &Uniforms) -> (c: Vec3)
    ensures
        c == jupiter_spec(*fragment),
{
    let (u, v) = (uv_coord(fragment.x, 100), uv_coord(fragment.y, 100));
    let spot = storm_spot_exec(storm_distance_exec(u, v));
    let base = band3_exec(jupiter_band_exec(u, v), 6600, 3300, Vec3::new(8000, 6000, 4000), Vec3::new(7000, 4000, 2000), Vec3::new(6000, 3500, 1500));
    vscale(&vadd(&base, &spot), 11000)
}

/// Water, grass and forest under a green glow.
#[verifier::spinoff_prover]
pub fn namek_shader(fragment: &Fragment, _uniforms: &Uniforms) -> (c: Vec3)
    ensures
        c == namek_spec(*fragment),
{
    let (u, v) = (uv_coord(fragment.x, 120), uv_coord(fragment.y, 120));
    let n1 = fixed_mul(sin_wave_exec(u, 40000, 0), cos_wave_exec(v, 35000, 0));
    let n2 = fixed_mul(cos_wave_exec(u, 60000, 500_000), sin_wave_exec(v, 55000, 300_000));
    let pattern = abs_exec(n1 as i64 + fixed_mul(n2, 6000) as i64);
    let base = band3_exec(pattern, 6500, 3500, Vec3::new(2000, 6500, 2000), Vec3::new(4000, 8500, 4000), Vec3::new(1000, 5000, 4000));
    vscale(&vadd(&base, &Vec3::new(600, 1000, 600)), 14000)
}

/// Yellow and orange turbulence.
#[verifier::spinoff_prover]
pub fn sun_shader(fragment: &Fragment, _uniforms: &Uniforms) -> (c: Vec3)
    ensures
        c == sun_spec(*fragment),
{
    let (u, v) = (uv_coord(fragment.x, 80), uv_coord(fragment.y, 80));
    let n1 = fixed_mul(sin_wave_exec(u, 30000, 0), cos_wave_exec(v, 28000, 0));
    let n2 = fixed_mul(cos_wave_exec(u, 55000, 1_000_000), sin_wave_exec(v, 45000, 800_000));
    let n3 = sin_fixed(fixed_mul(u, 80000) as i64 - fixed_mul(v, 60000) as i64);
    let turbulence = abs_exec(n1 as i64 + fixed_mul(n2, 5000) as i64 + fixed_mul(n3, 3000) as i64);
    let base = band3_exec(turbulence, 7000, 4000, Vec3::new(ONE, ONE, 6000), Vec3::new(ONE, 7000, 2000), Vec3::new(ONE, 5000, 1000));
    vscale(&base, 25000)
}


/// The procedural surface shaders.
#[derive(Clone, Copy, Debug, PartialEq, Eq, Structural)]
pub enum ShaderKind {
    Earth,
    Jupiter,
    Namek,
    Sun,
}

/// The shader of a name; an unknown name gets the earth shader.
pub open spec fn kind_named(name: Seq<char>) -> ShaderKind {
    if name == "jupiter"@ {
        ShaderKind::Jupiter
    } else if name == "namek"@ {
        ShaderKind::Namek
    } else if name == "sun"@ {
        ShaderKind::Sun
    } else {
        ShaderKind::Earth
    }
}

/// The colour that shader `kind` gives a fragment.
pub open spec fn shade_spec(kind: ShaderKind, f: Fragment) -> Vec3 {
    match kind {
        ShaderKind::Earth => earth_spec(f),
        ShaderKind::Jupiter => jupiter_spec(f),
        ShaderKind::Namek => namek_spec(f),
        ShaderKind::Sun => sun_spec(f),
    }
}

/// Character-wise equality of two strings.
pub fn same_text(s: &str, t: &str) -> (r: bool)
    ensures
        r == (s@ == t@),
{
    let n = s.unicode_len();
    if n != t.unicode_len() {
        return false;
    }
    let mut i: usize = 0;
    while i < n
        invariant
            n == s@.len(),
            n == t@.len(),
            i <= n,
            forall|k: int| 0 <= k < i ==> s@[k] == t@[k],
        decreases n - i,
    {
        if s.get_char(i) != t.get_char(i) {
            return false;
        }
        i = i + 1;
    }
    assert(s@ =~= t@);
    true
}

impl ShaderKind {
    /// The shader called `name`: "earth", "jupiter", "namek" or "sun"; any
    /// other name falls back to "earth".
    pub fn from_name(name: &str) -> (k: ShaderKind)
        ensures
            k == kind_named(name@),
    {
        if same_text(name, "jupiter") {
            ShaderKind::Jupiter
        } else if same_text(name, "namek") {
            ShaderKind::Namek
        } else if same_text(name, "sun") {
            ShaderKind::Sun
        } else {
            ShaderKind::Earth
        }
    }
}

/// Shades a fragment with shader `kind`.
pub fn shade(kind: ShaderKind, fragment: &Fragment, uniforms: &Uniforms) -> (c: Vec3)
    ensures
        c == shade_spec(kind, *fragment),
{
    match kind {
        ShaderKind::Earth => earth_shader(fragment, uniforms),
        ShaderKind::Jupiter => jupiter_shader(fragment, uniforms),
        ShaderKind::Namek => namek_shader(fragment, uniforms),
        ShaderKind::Sun => sun_shader(fragment, uniforms),
    }
}

/// Shades a fragment with the shader called `shader_type`.
pub fn fragment_shaders(fragment: &Fragment, uniforms: &Uniforms, shader_type: &str) -> (c: Vec3)
    ensures
        c == shade_spec(kind_named(shader_type@), *fragment),
{
    shade(ShaderKind::from_name(shader_type), fragment, uniforms)
}

} // verus!
