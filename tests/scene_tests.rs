use softrender::fixed::ONE;
use softrender::framebuffer::{Color, Framebuffer};
use softrender::matrix::{
    create_model_matrix, create_projection_matrix, create_view_matrix, create_viewport_matrix,
};
use softrender::obj::Obj;
use softrender::pipeline::{assemble_triangles, render, transform_vertices};
use softrender::triangle::triangle;
use softrender::light::Light;
use softrender::uniforms::Uniforms;
use softrender::vector::{Vec2, Vec3};
use softrender::vertex::Vertex;

const WIDTH: i32 = 200;
const HEIGHT: i32 = 150;

fn fixed(v: f64) -> i32 {
    (v * ONE as f64).round() as i32
}

/// A unit sphere as an indexed mesh: `rings` latitude bands, `segments`
/// longitude slices.
fn sphere(rings: usize, segments: usize) -> Obj {
    let mut positions = Vec::new();
    let mut normals = Vec::new();
    for r in 0..=rings {
        let theta = std::f64::consts::PI * r as f64 / rings as f64;
        for s in 0..=segments {
            let phi = 2.0 * std::f64::consts::PI * s as f64 / segments as f64;
            let (x, y, z) = (theta.sin() * phi.cos(), theta.cos(), theta.sin() * phi.sin());
            positions.extend_from_slice(&[fixed(x), fixed(y), fixed(z)]);
            normals.extend_from_slice(&[fixed(x), fixed(-y), fixed(z)]);
        }
    }
    let mut indices = Vec::new();
    let row = (segments + 1) as u32;
    for r in 0..rings as u32 {
        for s in 0..segments as u32 {
            let a = r * row + s;
            let b = a + row;
            indices.extend_from_slice(&[a, b, a + 1, a + 1, b, b + 1]);
        }
    }
    let mut obj = Obj::new();
    obj.add_mesh(&positions, &normals, &Vec::new(), &indices);
    obj
}

fn camera_uniforms() -> Uniforms {
    Uniforms {
        model_matrix: create_model_matrix(Vec3::new(0, 0, 0), ONE, Vec3::new(0, 0, 0)),
        view_matrix: create_view_matrix(Vec3::new(0, 0, 5 * ONE), Vec3::new(0, 0, 0), Vec3::new(0, ONE, 0)),
        projection_matrix: create_projection_matrix(10_472, WIDTH * ONE / HEIGHT, 1_000, 100 * ONE),
        viewport_matrix: create_viewport_matrix(0, 0, WIDTH * ONE, HEIGHT * ONE),
    }
}

#[test]
fn sphere_stays_in_its_silhouette_and_nearest_wins() {
    let obj = sphere(16, 24);
    let vertices = obj.get_vertex_array();
    let uniforms = camera_uniforms();
    let light = Light::new(Vec3::new(0, 0, 10 * ONE));
    let mut fb = Framebuffer::new(WIDTH, HEIGHT);
    let background = Color::new(0, 0, 0, 255);
    render(&mut fb, &uniforms, &vertices, &light, "earth");

    // The silhouette of a unit sphere seen from distance 5 with a 60 degree
    // field of view spans about 26.5 pixels around the centre (100, 75).
    let mut drawn = 0;
    for y in 0..HEIGHT {
        for x in 0..WIDTH {
            let c = fb.get_pixel_color(x, y).unwrap();
            if c != background {
                drawn += 1;
                assert!((71..=129).contains(&x) && (46..=104).contains(&y), "pixel ({}, {}) drawn", x, y);
            }
        }
    }
    assert!(drawn > 1_500);

    // Every fragment that reaches the apex pixel, front and back: the stored
    // depth is the least of them, and a farther one exists.
    let transformed = transform_vertices(&vertices, &uniforms);
    let mut depths = Vec::new();
    for tri in assemble_triangles(&transformed) {
        for f in triangle(&tri.0, &tri.1, &tri.2, &light) {
            if f.x == 100 && f.y == 75 {
                depths.push(f.depth as i64);
            }
        }
    }
    let nearest = *depths.iter().min().unwrap();
    let farthest = *depths.iter().max().unwrap();
    assert!(farthest > nearest);
    assert_eq!(fb.get_pixel_depth(100, 75), Some(nearest));
    assert_ne!(fb.get_pixel_color(100, 75), Some(background));
}

#[test]
fn leftover_vertices_are_dropped() {
    let v = Vertex::new(Vec3::new(0, 0, 0), Vec3::new(0, 0, ONE), Vec2::new(0, 0));
    let w = Vertex::new(Vec3::new(ONE, 0, 0), Vec3::new(0, 0, ONE), Vec2::new(0, 0));
    let list = vec![v, w, v, w, v];
    let tris = assemble_triangles(&list);
    assert_eq!(tris.len(), 1);
    assert_eq!(tris[0], (v, w, v));
    assert!(assemble_triangles(&vec![v, w]).is_empty());
}

#[test]
fn mesh_expansion_flips_y_and_follows_indices() {
    let mut obj = Obj::new();
    obj.add_mesh(&vec![1, 2, 3, 4, 5, 6], &Vec::new(), &vec![10, 20, 30, 40], &vec![1, 0, 1]);
    assert_eq!(obj.vertices.len(), 2);
    assert_eq!(obj.vertices[0].position, Vec3::new(1, -2, 3));
    assert_eq!(obj.vertices[1].tex_coords, Vec2::new(30, 40));
    assert_eq!(obj.vertices[1].normal, Vec3::new(0, 0, 0));
    let flat = obj.get_vertex_array();
    assert_eq!(flat.len(), 3);
    assert_eq!(flat[0].position, Vec3::new(4, -5, 6));
    assert_eq!(flat[1].position, Vec3::new(1, -2, 3));
}

#[test]
fn empty_mesh_draws_nothing() {
    let mut fb = Framebuffer::new(8, 8);
    let before = fb.color_buffer().clone();
    render(&mut fb, &camera_uniforms(), &Vec::new(), &Light::new(Vec3::new(0, 0, 0)), "sun");
    assert_eq!(fb.color_buffer(), &before);
}
