use softrender::fixed::ONE;
use softrender::fragment::Fragment;
use softrender::triangle::{barycentric_coordinates, triangle, Barycentric};
use softrender::light::Light;
use softrender::vector::{Vec2, Vec3};
use softrender::vertex::Vertex;

fn screen_vertex(x: i32, y: i32, z: i32) -> Vertex {
    Vertex::new(Vec3::new(x, y, z), Vec3::new(0, 0, ONE), Vec2::new(0, 0))
}

fn light() -> Light {
    Light::new(Vec3::new(0, 0, 100 * ONE))
}

#[test]
fn right_triangle_matches_scanlines() {
    let a = screen_vertex(0, 0, 0);
    let b = screen_vertex(10 * ONE, 0, 0);
    let c = screen_vertex(0, 10 * ONE, 0);
    let frags = triangle(&a, &b, &c, &light());
    // Reference scanlines: in row y the pixel centres x + 0.5 with
    // (x + 0.5) + (y + 0.5) <= 10.
    let mut expected: Vec<(i32, i32)> = Vec::new();
    for y in 0..=10 {
        let cy = y as f64 + 0.5;
        for x in 0..=10 {
            let cx = x as f64 + 0.5;
            if cx + cy <= 10.0 {
                expected.push((x, y));
            }
        }
    }
    let got: Vec<(i32, i32)> = frags.iter().map(|f| (f.x, f.y)).collect();
    assert_eq!(got, expected);
    assert_eq!(got.len(), 55);
}

#[test]
fn weights_at_vertices_are_unit() {
    let a = screen_vertex(0, 0, 0);
    let b = screen_vertex(10 * ONE, 0, 0);
    let c = screen_vertex(0, 10 * ONE, 0);
    let area: i128 = 10_000_000_000;
    assert_eq!(barycentric_coordinates(0, 0, &a, &b, &c), Barycentric { e1: area, e2: 0, e3: 0, area });
    assert_eq!(barycentric_coordinates(10 * ONE as i64, 0, &a, &b, &c), Barycentric { e1: 0, e2: area, e3: 0, area });
    assert_eq!(barycentric_coordinates(0, 10 * ONE as i64, &a, &b, &c), Barycentric { e1: 0, e2: 0, e3: area, area });
}

#[test]
fn degenerate_weights_are_negative() {
    let a = screen_vertex(0, 0, 0);
    let b = screen_vertex(5 * ONE, 5 * ONE, 0);
    let c = screen_vertex(10 * ONE, 10 * ONE, 0);
    let w = barycentric_coordinates(5_000, 5_000, &a, &b, &c);
    assert_eq!(w, Barycentric { e1: -1, e2: -1, e3: -1, area: 1 });
}

#[test]
fn collinear_triangle_yields_nothing() {
    let a = screen_vertex(0, 0, 0);
    let b = screen_vertex(5 * ONE, 5 * ONE, 0);
    let c = screen_vertex(10 * ONE, 10 * ONE, 0);
    assert!(triangle(&a, &b, &c, &light()).is_empty());
}

#[test]
fn coincident_triangle_yields_nothing() {
    let a = screen_vertex(3 * ONE, 4 * ONE, 0);
    assert!(triangle(&a, &a, &a, &light()).is_empty());
}

#[test]
fn winding_does_not_cull() {
    let a = screen_vertex(0, 0, 0);
    let b = screen_vertex(10 * ONE, 0, 0);
    let c = screen_vertex(0, 10 * ONE, 0);
    assert_eq!(triangle(&a, &c, &b, &light()).len(), 55);
}

#[test]
fn depth_is_interpolated() {
    let a = screen_vertex(0, 0, 0);
    let b = screen_vertex(10 * ONE, 0, 10 * ONE);
    let c = screen_vertex(0, 10 * ONE, 0);
    let frags = triangle(&a, &b, &c, &light());
    // Depth grows with x: at the centre of pixel (4, 0) it is 4.5.
    let f = frags.iter().find(|f| f.x == 4 && f.y == 0).unwrap();
    assert_eq!(f.depth, 45_000);
}

#[test]
fn lambert_lighting_of_facing_surface() {
    // Normals along +z and a light far along +z: full intensity, mid grey.
    let a = screen_vertex(0, 0, 0);
    let b = screen_vertex(4 * ONE, 0, 0);
    let c = screen_vertex(0, 4 * ONE, 0);
    let frags = triangle(&a, &b, &c, &light());
    let f = frags[0];
    assert!(f.color.x >= 4_990 && f.color.x <= 5_000);
    assert_eq!(f.color.x, f.color.y);
    assert_eq!(f.color.y, f.color.z);
    // A light behind the surface gives black.
    let back = Light::new(Vec3::new(0, 0, -100 * ONE));
    let g = triangle(&a, &b, &c, &back)[0];
    assert_eq!(g.color, Vec3::new(0, 0, 0));
}

#[test]
fn zero_normals_give_no_light() {
    let a = Vertex::new(Vec3::new(0, 0, 0), Vec3::new(0, 0, 0), Vec2::new(0, 0));
    let b = Vertex::new(Vec3::new(4 * ONE, 0, 0), Vec3::new(0, 0, 0), Vec2::new(0, 0));
    let c = Vertex::new(Vec3::new(0, 4 * ONE, 0), Vec3::new(0, 0, 0), Vec2::new(0, 0));
    let frags = triangle(&a, &b, &c, &light());
    assert!(!frags.is_empty());
    assert!(frags.iter().all(|f| f.color == Vec3::new(0, 0, 0)));
}

#[test]
fn horizontal_line() {
    let a = screen_vertex(5_000, 5_000, 0);
    let b = screen_vertex(55_000, 5_000, 0);
    let frags = softrender::line::line(&a, &b);
    let xs: Vec<(i32, i32)> = frags.iter().map(|f| (f.x, f.y)).collect();
    assert_eq!(xs, vec![(0, 0), (1, 0), (2, 0), (3, 0), (4, 0), (5, 0)]);
    assert!(frags.iter().all(|f| f.color == Vec3::new(ONE, ONE, ONE)));
}

#[test]
fn diagonal_line_reaches_end() {
    let a = screen_vertex(0, 0, 0);
    let b = screen_vertex(60_000, 30_000, 60_000);
    let frags: Vec<Fragment> = softrender::line::line(&a, &b);
    assert_eq!(frags.len(), 7);
    assert_eq!((frags[0].x, frags[0].y), (0, 0));
    assert_eq!((frags[6].x, frags[6].y), (6, 3));
    for w in frags.windows(2) {
        assert_eq!(w[1].x - w[0].x, 1);
        assert!(w[1].y - w[0].y == 0 || w[1].y - w[0].y == 1);
    }
    // Depth is linear in x.
    assert_eq!(frags[3].depth, 30_000);
}

#[test]
fn single_point_line() {
    let a = screen_vertex(25_000, 35_000, 7);
    let frags = softrender::line::line(&a, &a);
    assert_eq!(frags.len(), 1);
    assert_eq!((frags[0].x, frags[0].y, frags[0].depth), (2, 3, 7));
}

#[test]
fn each_row_is_one_span() {
    let a = screen_vertex(13_000, 7_000, 0);
    let b = screen_vertex(179_000, 52_000, 0);
    let c = screen_vertex(61_000, 148_000, 0);
    let frags = triangle(&a, &b, &c, &light());
    assert!(frags.len() > 50);
    for w in frags.windows(2) {
        let (p, q) = (w[0], w[1]);
        assert!((p.y, p.x) < (q.y, q.x));
        if p.y == q.y {
            assert_eq!(q.x, p.x + 1);
        }
    }
}
