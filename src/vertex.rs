//! Mesh vertices: object-space attributes and the attributes that the vertex
//! stage derives from them.
use vstd::prelude::*;
use crate::fixed::ONE;
use crate::vector::{Vec2, Vec3};

verus! {

#[derive(Clone, Copy, Debug, PartialEq, Eq, Structural)]
pub struct Vertex {
    /// Object-space position.
    pub position: Vec3,
    /// Object-space normal.
    pub normal: Vec3,
    /// Texture coordinate, carried through unchanged.
    pub tex_coords: Vec2,
    /// Static colour attribute.
    pub color: Vec3,
    /// Screen-space position: x and y in pixels, z the depth.
    pub transformed_position: Vec3,
    /// Normal rotated by the model transform and renormalized.
    pub transformed_normal: Vec3,
    /// Position after the model transform, before the view transform.
    pub world_position: Vec3,
}

pub open spec fn zero3() -> Vec3 {
    Vec3 { x: 0, y: 0, z: 0 }
}

impl Vertex {
    /// A black vertex whose derived attributes start as its own.
    pub fn new(position: Vec3, normal: Vec3, tex_coords: Vec2) -> (v: Vertex)
        ensures
            v == (Vertex {
                position,
                normal,
                tex_coords,
                color: zero3(),
                transformed_position: position,
                transformed_normal: normal,
                world_position: position,
            }),
    {
        Vertex {
            position,
            normal,
            tex_coords,
            color: Vec3::zero(),
            transformed_position: position,
            transformed_normal: normal,
            world_position: position,
        }
    }

    /// A vertex with a position and a colour, everything else zero.
    pub fn new_with_color(position: Vec3, color: Vec3) -> (v: Vertex)
        ensures
            v == (Vertex {
                position,
                normal: zero3(),
                tex_coords: Vec2 { x: 0, y: 0 },
                color,
                transformed_position: zero3(),
                transformed_normal: zero3(),
                world_position: zero3(),
            }),
    {
        Vertex {
            position,
            normal: Vec3::zero(),
            tex_coords: Vec2::new(0, 0),
            color,
            transformed_position: Vec3::zero(),
            transformed_normal: Vec3::zero(),
            world_position: Vec3::zero(),
        }
    }

    /// Replaces the screen-space position and the transformed normal.
    pub fn set_transformed(&mut self, position: Vec3, normal: Vec3)
        ensures
            *final(self) == (Vertex {
                transformed_position: position,
                transformed_normal: normal,
                ..*old(self)
            }),
    {
        self.transformed_position = position;
        self.transformed_normal = normal;
    }
}

impl Default for Vertex {
    /// A black vertex at the origin with its normal along +y.
    fn default() -> (v: Vertex)
        ensures
            v == (Vertex {
                position: zero3(),
                normal: Vec3 { x: 0, y: ONE, z: 0 },
                tex_coords: Vec2 { x: 0, y: 0 },
                color: zero3(),
                transformed_position: zero3(),
                transformed_normal: Vec3 { x: 0, y: ONE, z: 0 },
                world_position: zero3(),
            }),
    {
        Vertex {
            position: Vec3::zero(),
            normal: Vec3::new(0, ONE, 0),
            tex_coords: Vec2::new(0, 0),
            color: Vec3::zero(),
            transformed_position: Vec3::zero(),
            transformed_normal: Vec3::new(0, ONE, 0),
            world_position: Vec3::zero(),
        }
    }
}

} // verus!
