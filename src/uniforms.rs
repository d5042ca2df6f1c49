//! The matrices of one draw call.
use vstd::prelude::*;
use crate::matrix::Mat4;

verus! {

/// The four transforms of one draw call.
#[derive(Clone, Copy, Debug, PartialEq, Eq, Structural)]
pub struct Uniforms {
    pub model_matrix: Mat4,
    pub view_matrix: Mat4,
    pub projection_matrix: Mat4,
    pub viewport_matrix: Mat4,
}

} // verus!
