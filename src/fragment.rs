//! Candidate pixel writes produced by rasterization.
use vstd::prelude::*;
use crate::vector::Vec3;

verus! {

/// A candidate write of one pixel.
#[derive(Clone, Copy, Debug, PartialEq, Eq, Structural)]
pub struct Fragment {
    /// Pixel column.
    pub x: i32,
    /// Pixel row.
    pub y: i32,
    /// Colour, each channel at scale `ONE` (one is full intensity).
    pub color: Vec3,
    /// Interpolated depth; smaller is nearer.
    pub depth: i32,
}

impl Fragment {
    pub fn new(x: i32, y: i32, color: Vec3, depth: i32) -> (f: Fragment)
        ensures
            f == (Fragment { x, y, color, depth }),
    {
        Fragment { x, y, color, depth }
    }
}

} // verus!
