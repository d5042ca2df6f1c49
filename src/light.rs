//! The scene light.
use vstd::prelude::*;
use crate::vector::Vec3;

verus! {

/// A point light.
#[derive(Clone, Copy, Debug, PartialEq, Eq, Structural)]
pub struct Light {
    pub position: Vec3,
}

impl Light {
    pub fn new(position: Vec3) -> (l: Light)
        ensures
            l == (Light { position }),
    {
        Light { position }
    }
}

} // verus!
