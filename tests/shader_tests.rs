use softrender::fixed::ONE;
use softrender::fragment::Fragment;
use softrender::matrix::{create_model_matrix, new_matrix3, new_matrix4, Mat4};
use softrender::shaders::{
    earth_shader, fragment_shaders, jupiter_shader, namek_shader, same_text, shade, sun_shader,
    vertex_shader, ShaderKind,
};
use softrender::uniforms::Uniforms;
use softrender::vector::{Vec2, Vec3};
use softrender::vertex::Vertex;

fn identity() -> Mat4 {
    new_matrix3(ONE, 0, 0, 0, ONE, 0, 0, 0, ONE)
}

fn plain_uniforms() -> Uniforms {
    Uniforms {
        model_matrix: identity(),
        view_matrix: identity(),
        projection_matrix: identity(),
        viewport_matrix: identity(),
    }
}

fn at(x: i32, y: i32) -> Fragment {
    Fragment::new(x, y, Vec3::new(0, 0, 0), 0)
}

#[test]
fn shader_names() {
    assert_eq!(ShaderKind::from_name("earth"), ShaderKind::Earth);
    assert_eq!(ShaderKind::from_name("jupiter"), ShaderKind::Jupiter);
    assert_eq!(ShaderKind::from_name("namek"), ShaderKind::Namek);
    assert_eq!(ShaderKind::from_name("sun"), ShaderKind::Sun);
    assert_eq!(ShaderKind::from_name("moon"), ShaderKind::Earth);
    assert_eq!(ShaderKind::from_name(""), ShaderKind::Earth);
    assert_eq!(ShaderKind::from_name("Sun"), ShaderKind::Earth);
}

#[test]
fn text_equality() {
    assert!(same_text("namek", "namek"));
    assert!(!same_text("name", "namek"));
    assert!(!same_text("nameK", "namek"));
}

#[test]
fn earth_colors() {
    let u = plain_uniforms();
    assert_eq!(earth_shader(&at(0, 0), &u), Vec3::new(600, 3_600, 6_600));
    assert_eq!(earth_shader(&at(100, 200), &u), Vec3::new(3_000, 6_000, 2_400));
}

#[test]
fn earth_clouds_lighten() {
    // Ocean (0.05, 0.3, 0.55) * 0.7 + 0.3, then * 1.2.
    assert_eq!(earth_shader(&at(0, 11), &plain_uniforms()), Vec3::new(4_020, 6_120, 8_220));
}

#[test]
fn jupiter_colors() {
    let u = plain_uniforms();
    assert_eq!(jupiter_shader(&at(0, 0), &u), Vec3::new(7_700, 4_400, 2_200));
    assert_eq!(jupiter_shader(&at(400, 300), &u), Vec3::new(8_800, 6_600, 4_400));
}

#[test]
fn jupiter_storm_spot_adds_red() {
    let u = plain_uniforms();
    assert_eq!(jupiter_shader(&at(30_000, 25_000), &u), Vec3::new(10_998, 4_948, 2_198));
    assert_eq!(jupiter_shader(&at(30_010, 25_000), &u), Vec3::new(10_990, 4_946, 2_197));
}

#[test]
fn namek_colors() {
    let u = plain_uniforms();
    assert_eq!(namek_shader(&at(0, 0), &u), Vec3::new(6_440, 13_300, 6_440));
    assert_eq!(namek_shader(&at(100, 200), &u), Vec3::new(2_240, 8_400, 6_440));
}

#[test]
fn sun_colors() {
    let u = plain_uniforms();
    assert_eq!(sun_shader(&at(0, 0), &u), Vec3::new(25_000, 17_500, 5_000));
    assert_eq!(sun_shader(&at(100, 200), &u), Vec3::new(25_000, 12_500, 2_500));
}

#[test]
fn dispatch_by_name_and_default() {
    let u = plain_uniforms();
    let f = at(100, 200);
    assert_eq!(fragment_shaders(&f, &u, "sun"), sun_shader(&f, &u));
    assert_eq!(fragment_shaders(&f, &u, "jupiter"), jupiter_shader(&f, &u));
    assert_eq!(fragment_shaders(&f, &u, "namek"), namek_shader(&f, &u));
    assert_eq!(fragment_shaders(&f, &u, "moon"), earth_shader(&f, &u));
    assert_eq!(shade(ShaderKind::Namek, &f, &u), namek_shader(&f, &u));
}

#[test]
fn vertex_stage_divides_by_w() {
    // A projection that copies z into w: clip = (x, y, z, z).
    let projection = new_matrix4(ONE, 0, 0, 0, 0, ONE, 0, 0, 0, 0, ONE, 0, 0, 0, ONE, 0);
    let u = Uniforms { projection_matrix: projection, ..plain_uniforms() };
    let v = Vertex::new(Vec3::new(ONE, -3 * ONE, 2 * ONE), Vec3::new(0, ONE, 0), Vec2::new(1, 2));
    let r = vertex_shader(&v, &u);
    // NDC = (1 / 2, -3 / 2, 2 / 2); the identity viewport keeps it.
    assert_eq!(r.transformed_position, Vec3::new(5_000, -15_000, ONE));
    assert_eq!(r.world_position, Vec3::new(ONE, -3 * ONE, 2 * ONE));
    assert_eq!(r.position, v.position);
    assert_eq!(r.tex_coords, Vec2::new(1, 2));
}

#[test]
fn vertex_stage_keeps_clip_when_w_is_zero() {
    let projection = new_matrix3(ONE, 0, 0, 0, ONE, 0, 0, 0, ONE);
    let zero_w = Mat4 { r3: softrender::vector::Vec4::new(0, 0, 0, 0), ..projection };
    let u = Uniforms { projection_matrix: zero_w, ..plain_uniforms() };
    let v = Vertex::new(Vec3::new(7, 8, 9), Vec3::new(0, 0, 0), Vec2::new(0, 0));
    let r = vertex_shader(&v, &u);
    assert_eq!(r.transformed_position, Vec3::new(7, 8, 9));
}

#[test]
fn normals_are_rotated_and_renormalized() {
    let model = create_model_matrix(Vec3::new(5 * ONE, 0, 0), 3 * ONE, Vec3::new(0, 0, 0));
    let u = Uniforms { model_matrix: model, ..plain_uniforms() };
    let v = Vertex::new(Vec3::new(0, 0, 0), Vec3::new(0, 2 * ONE, 0), Vec2::new(0, 0));
    let r = vertex_shader(&v, &u);
    // Translation does not move a direction; scaling is undone by the
    // renormalization.
    assert_eq!(r.transformed_normal, Vec3::new(0, ONE, 0));
    let zero = Vertex::new(Vec3::new(0, 0, 0), Vec3::new(0, 0, 0), Vec2::new(0, 0));
    assert_eq!(vertex_shader(&zero, &u).transformed_normal, Vec3::new(0, 0, 0));
}

#[test]
fn vertex_constructors() {
    let v = Vertex::new_with_color(Vec3::new(1, 2, 3), Vec3::new(ONE, 0, 0));
    assert_eq!(v.color, Vec3::new(ONE, 0, 0));
    assert_eq!(v.normal, Vec3::new(0, 0, 0));
    let mut d = Vertex::default();
    assert_eq!(d.normal, Vec3::new(0, ONE, 0));
    d.set_transformed(Vec3::new(4, 5, 6), Vec3::new(0, 0, ONE));
    assert_eq!(d.transformed_position, Vec3::new(4, 5, 6));
    assert_eq!(d.transformed_normal, Vec3::new(0, 0, ONE));
    assert_eq!(d.position, Vec3::new(0, 0, 0));
}
