//! The frame driver: vertex stage, primitive assembly, rasterization,
//! fragment shading and depth-tested writes, in that order.
use vstd::prelude::*;
use crate::fragment::Fragment;
use crate::framebuffer::{cell, in_bounds, plot, to_color, FrameModel, Framebuffer};
use crate::shaders::{kind_named, shade, shade_spec, vertex_shader, vertex_shader_spec, ShaderKind};
use crate::triangle::{rasterized, triangle};
use crate::light::Light;
use crate::uniforms::Uniforms;
use crate::vertex::Vertex;

verus! {

/// Three vertices of one triangle, in input order.
pub type Triangle = (Vertex, Vertex, Vertex);

/// Every vertex through the vertex stage.
pub open spec fn transformed_spec(vs: Seq<Vertex>, u: Uniforms) -> Seq<Vertex> {
    Seq::new(vs.len(), |i: int| vertex_shader_spec(vs[i], u))
}

/// Consecutive triples of vertices; one or two left over are dropped.
pub open spec fn assembled(vs: Seq<Vertex>) -> Seq<Triangle> {
    Seq::new(vs.len() / 3, |k: int| (vs[3 * k], vs[3 * k + 1], vs[3 * k + 2]))
}

/// `parts[k]` is the rasterization of triangle `k`.
pub open spec fn drawn(tris: Seq<Triangle>, light: Light, parts: Seq<Seq<Fragment>>) -> bool {
    &&& parts.len() == tris.len()
    &&& forall|k: int| 0 <= k < tris.len() ==> rasterized(tris[k].0, tris[k].1, tris[k].2, light, #[trigger] parts[k])
}

/// The parts one after the other.
pub open spec fn concat(parts: Seq<Seq<Fragment>>) -> Seq<Fragment>
    decreases parts.len(),
{
    if parts.len() == 0 {
        Seq::empty()
    } else {
        concat(parts.drop_last()) + parts.last()
    }
}

/// One fragment shaded by `kind` and written with the depth test.
pub open spec fn plot_fragment(m: FrameModel, f: Fragment, kind: ShaderKind) -> FrameModel {
    plot(m, f.x as int, f.y as int, f.depth as int, to_color(shade_spec(kind, f)))
}

/// The fragments shaded and written in order.
pub open spec fn plot_all(m: FrameModel, fs: Seq<Fragment>, kind: ShaderKind) -> FrameModel
    decreases fs.len(),
{
    if fs.len() == 0 {
        m
    } else {
        plot_fragment(plot_all(m, fs.drop_last(), kind), fs.last(), kind)
    }
}

/// The vertex stage over a whole vertex list.
pub fn transform_vertices(vertex_array: &Vec<Vertex>, uniforms: &Uniforms) -> (r: Vec<Vertex>)
    ensures
        r@ == transformed_spec(vertex_array@, *uniforms),
{
    let mut out: Vec<Vertex> = Vec::new();
    let mut i: usize = 0;
    while i < vertex_array.len()
        invariant
            i <= vertex_array@.len(),
            out@ == transformed_spec(vertex_array@.take(i as int), *uniforms),
        decreases vertex_array@.len() - i,
    {
        out.push(vertex_shader(&vertex_array[i], uniforms));
        i = i + 1;
        assert(out@ =~= transformed_spec(vertex_array@.take(i as int), *uniforms));
    }
    assert(vertex_array@.take(i as int) =~= vertex_array@);
    out
}

/// Primitive assembly: consecutive triples, leftovers dropped.
pub fn assemble_triangles(vertices: &Vec<Vertex>) -> (r: Vec<Triangle>)
    ensures
        r@ == assembled(vertices@),
{
    let mut out: Vec<Triangle> = Vec::new();
    let n = vertices.len();
    let mut i: usize = 0;
    while n >= 3 && i <= n - 3
        invariant
            n == vertices@.len(),
            i % 3 == 0,
            i <= n,
            out@.len() == i / 3,
            forall|k: int| 0 <= k < i / 3 ==> out@[k] == (vertices@[3 * k], vertices@[3 * k + 1], vertices@[3 * k + 2]),
        decreases n - i,
    {
        out.push((vertices[i], vertices[i + 1], vertices[i + 2]));
        i = i + 3;
    }
    assert(out@ =~= assembled(vertices@));
    out
}

/// Draws one mesh: every vertex through the vertex stage, consecutive triples
/// rasterized in order, each fragment shaded by the shader called
/// `shader_type` and written with the depth test. The shader's colour
/// replaces the rasterizer's lit grey: shaders see only the fragment's
/// position.
#[verifier::spinoff_prover]
pub fn render(framebuffer: &mut Framebuffer, uniforms: &Uniforms, vertex_array: &Vec<Vertex>, light: &Light, shader_type: &str)
    requires
        old(framebuffer).wf(),
    ensures
        final(framebuffer).wf(),
        exists|parts: Seq<Seq<Fragment>>|
            drawn(assembled(transformed_spec(vertex_array@, *uniforms)), *light, parts)
            && final(framebuffer)@ == plot_all(old(framebuffer)@, concat(parts), kind_named(shader_type@)),
{
    let kind = ShaderKind::from_name(shader_type);
    let transformed_vertices = transform_vertices(vertex_array, uniforms);
    let triangles = assemble_triangles(&transformed_vertices);
    let ghost start = framebuffer@;
    let ghost mut parts: Seq<Seq<Fragment>> = Seq::empty();
    let mut t: usize = 0;
    while t < triangles.len()
        invariant
            t <= triangles@.len(),
            triangles@ == assembled(transformed_spec(vertex_array@, *uniforms)),
            framebuffer.wf(),
            parts.len() == t,
            forall|k: int| 0 <= k < t ==> rasterized(triangles@[k].0, triangles@[k].1, triangles@[k].2, *light, #[trigger] parts[k]),
            framebuffer@ == plot_all(start, concat(parts), kind),
        decreases triangles@.len() - t,
    {
        let tri = triangles[t];
        let fragments = triangle(&tri.0, &tri.1, &tri.2, light);
        let ghost before = concat(parts);
        let mut j: usize = 0;
        while j < fragments.len()
            invariant
                j <= fragments@.len(),
                framebuffer.wf(),
                framebuffer@ == plot_all(start, before + fragments@.take(j as int), kind),
            decreases fragments@.len() - j,
        {
            let f = fragments[j];
            let color = shade(kind, &f, uniforms);
            framebuffer.point(f.x, f.y, f.depth, color);
            proof {
                let s = before + fragments@.take(j + 1);
                assert(s.drop_last() =~= before + fragments@.take(j as int));
                assert(s.last() == f);
            }
            j = j + 1;
        }
        proof {
            let old_parts = parts;
            parts = parts.push(fragments@);
            assert(parts.drop_last() =~= old_parts);
            assert(fragments@.take(j as int) =~= fragments@);
            assert forall|k: int| 0 <= k < t + 1 implies rasterized(triangles@[k].0, triangles@[k].1, triangles@[k].2, *light, #[trigger] parts[k]) by {
                if k < t {
                    assert(parts[k] == old_parts[k]);
                }
            }
        }
        t = t + 1;
    }
    assert(drawn(assembled(transformed_spec(vertex_array@, *uniforms)), *light, parts));
}


/// The grids of `m` have one cell per pixel.
pub open spec fn model_wf(m: FrameModel) -> bool {
    &&& m.width >= 0
    &&& m.height >= 0
    &&& m.colors.len() == m.width * m.height
    &&& m.depths.len() == m.width * m.height
}

proof fn lemma_plot_all_never_deepens(m: FrameModel, fs: Seq<Fragment>, kind: ShaderKind, k: int)
    requires
        model_wf(m),
        0 <= k < m.depths.len(),
    ensures
        model_wf(plot_all(m, fs, kind)),
        plot_all(m, fs, kind).width == m.width,
        plot_all(m, fs, kind).height == m.height,
        plot_all(m, fs, kind).depths[k] <= m.depths[k],
    decreases fs.len(),
{
    if fs.len() > 0 {
        lemma_plot_all_never_deepens(m, fs.drop_last(), kind, k);
        let p = plot_all(m, fs.drop_last(), kind);
        let f = fs.last();
        if in_bounds(p, f.x as int, f.y as int) {
            crate::framebuffer::lemma_cell_index(p, f.x as int, f.y as int);
        }
    }
}

/// Once the fragments are written in order, the depth stored at the pixel of
/// any fragment in bounds is no greater than that fragment's depth: a nearer
/// fragment is never overwritten by a farther one, whatever the order.
#[verifier::spinoff_prover]
pub proof fn lemma_nearest_fragment_wins(m: FrameModel, fs: Seq<Fragment>, kind: ShaderKind, i: int)
    requires
        model_wf(m),
        0 <= i < fs.len(),
        in_bounds(m, fs[i].x as int, fs[i].y as int),
    ensures
        plot_all(m, fs, kind).depths[cell(m, fs[i].x as int, fs[i].y as int)] <= fs[i].depth,
    decreases fs.len(),
{
    let c = cell(m, fs[i].x as int, fs[i].y as int);
    crate::framebuffer::lemma_cell_index(m, fs[i].x as int, fs[i].y as int);
    let rest = fs.drop_last();
    let p = plot_all(m, rest, kind);
    lemma_plot_all_never_deepens(m, rest, kind, c);
    let f = fs.last();
    if in_bounds(p, f.x as int, f.y as int) {
        crate::framebuffer::lemma_cell_index(p, f.x as int, f.y as int);
    }
    if i < fs.len() - 1 {
        assert(rest[i] == fs[i]);
        lemma_nearest_fragment_wins(m, rest, kind, i);
    }
}

} // verus!
