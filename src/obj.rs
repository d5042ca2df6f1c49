//! Indexed meshes and their expansion into a flat vertex list.
use vstd::prelude::*;
use crate::fixed::{c32, saturate};
use crate::vector::{Vec2, Vec3};
use crate::vertex::Vertex;

verus! {

/// Vertices and the triangle-corner indices into them.
pub struct Obj {
    pub vertices: Vec<Vertex>,
    pub indices: Vec<u32>,
}

/// Vertex `i` of a mesh given as flat arrays (three values per position and
/// normal, two per texture coordinate); y is flipped. A mesh without normals
/// or texture coordinates gets zeros.
pub open spec fn mesh_vertex(p: Seq<i32>, n: Seq<i32>, t: Seq<i32>, i: int) -> Vertex {
    let position = Vec3 { x: p[3 * i], y: c32(-p[3 * i + 1]), z: p[3 * i + 2] };
    let normal = if n.len() == 0 { Vec3 { x: 0, y: 0, z: 0 } } else { Vec3 { x: n[3 * i], y: n[3 * i + 1], z: n[3 * i + 2] } };
    let tex = if t.len() == 0 { Vec2 { x: 0, y: 0 } } else { Vec2 { x: t[2 * i], y: t[2 * i + 1] } };
    Vertex {
        position,
        normal,
        tex_coords: tex,
        color: Vec3 { x: 0, y: 0, z: 0 },
        transformed_position: position,
        transformed_normal: normal,
        world_position: position,
    }
}

pub open spec fn mesh_vertices(p: Seq<i32>, n: Seq<i32>, t: Seq<i32>) -> Seq<Vertex> {
    Seq::new(p.len() / 3, |i: int| mesh_vertex(p, n, t, i))
}

/// The attribute arrays cover every position.
pub open spec fn mesh_arrays_fit(p: Seq<i32>, n: Seq<i32>, t: Seq<i32>) -> bool {
    &&& (n.len() == 0 || n.len() >= p.len() / 3 * 3)
    &&& (t.len() == 0 || t.len() >= p.len() / 3 * 2)
}

/// Every index names a vertex.
pub open spec fn indices_valid(vertices: Seq<Vertex>, indices: Seq<u32>) -> bool {
    forall|i: int| 0 <= i < indices.len() ==> (#[trigger] indices[i]) < vertices.len()
}

/// The vertex list with each index replaced by the vertex it names.
pub open spec fn expanded(vertices: Seq<Vertex>, indices: Seq<u32>) -> Seq<Vertex> {
    Seq::new(indices.len(), |i: int| vertices[indices[i] as int])
}

impl Obj {
    pub fn new() -> (o: Obj)
        ensures
            o.vertices@.len() == 0,
            o.indices@.len() == 0,
    {
        Obj { vertices: Vec::new(), indices: Vec::new() }
    }

    /// Appends the vertices of one mesh and its indices, unchanged.
    pub fn add_mesh(&mut self, positions: &Vec<i32>, normals: &Vec<i32>, texcoords: &Vec<i32>, indices: &Vec<u32>)
        requires
            mesh_arrays_fit(positions@, normals@, texcoords@),
        ensures
            final(self).vertices@ == old(self).vertices@ + mesh_vertices(positions@, normals@, texcoords@),
            final(self).indices@ == old(self).indices@ + indices@,
    {
        let len = positions.len();
        let count = len / 3;
        let ghost start = self.vertices@;
        let mut i: usize = 0;
        while i < count
            invariant
                len == positions@.len(),
                count == len / 3,
                mesh_arrays_fit(positions@, normals@, texcoords@),
                i <= count,
                self.vertices@ == start + mesh_vertices(positions@, normals@, texcoords@).take(i as int),
                self.indices@ == old(self).indices@,
            decreases count - i,
        {
            assert(3 * count <= positions@.len());
            assert(3 * i + 2 < 3 * count);
            assert(2 * i + 1 < 2 * count);
            let position = Vec3::new(positions[3 * i], saturate(0 - positions[3 * i + 1] as i128), positions[3 * i + 2]);
            let normal = if normals.len() == 0 {
                Vec3::zero()
            } else {
                Vec3::new(normals[3 * i], normals[3 * i + 1], normals[3 * i + 2])
            };
            let tex = if texcoords.len() == 0 {
                Vec2::new(0, 0)
            } else {
                Vec2::new(texcoords[2 * i], texcoords[2 * i + 1])
            };
            self.vertices.push(Vertex::new(position, normal, tex));
            i = i + 1;
            assert(self.vertices@ =~= start + mesh_vertices(positions@, normals@, texcoords@).take(i as int));
        }
        assert(mesh_vertices(positions@, normals@, texcoords@).take(i as int) =~= mesh_vertices(positions@, normals@, texcoords@));
        let mut j: usize = 0;
        while j < indices.len()
            invariant
                j <= indices@.len(),
                self.indices@ == old(self).indices@ + indices@.take(j as int),
                self.vertices@ == start + mesh_vertices(positions@, normals@, texcoords@),
            decreases indices@.len() - j,
        {
            self.indices.push(indices[j]);
            j = j + 1;
            assert(self.indices@ =~= old(self).indices@ + indices@.take(j as int));
        }
        assert(indices@.take(j as int) =~= indices@);
    }

    /// One vertex per index, in index order.
    pub fn get_vertex_array(&self) -> (r: Vec<Vertex>)
        requires
            indices_valid(self.vertices@, self.indices@),
        ensures
            r@ == expanded(self.vertices@, self.indices@),
    {
        let mut out: Vec<Vertex> = Vec::new();
        let mut i: usize = 0;
        while i < self.indices.len()
            invariant
                i <= self.indices@.len(),
                indices_valid(self.vertices@, self.indices@),
                out@ == expanded(self.vertices@, self.indices@).take(i as int),
            decreases self.indices@.len() - i,
        {
            let index = self.indices[i];
            out.push(self.vertices[index as usize]);
            i = i + 1;
            assert(out@ =~= expanded(self.vertices@, self.indices@).take(i as int));
        }
        assert(expanded(self.vertices@, self.indices@).take(i as int) =~= expanded(self.vertices@, self.indices@));
        out
    }
}


/// Whether every index of `obj` names one of its vertices.
pub fn indices_in_range(obj: &Obj) -> (r: bool)
    ensures
        r == indices_valid(obj.vertices@, obj.indices@),
{
    let n = obj.vertices.len();
    let mut i: usize = 0;
    while i < obj.indices.len()
        invariant
            n == obj.vertices@.len(),
            i <= obj.indices@.len(),
            forall|k: int| 0 <= k < i ==> (#[trigger] obj.indices@[k]) < n,
        decreases obj.indices@.len() - i,
    {
        if obj.indices[i] as usize >= n {
            return false;
        }
        i = i + 1;
    }
    true
}

} // verus!
