//! The camera uniform: a 4x4 view-projection matrix.
//!
//! The matrix is computed once, from the window size, by the floating-point
//! math at the GPU boundary; this crate carries its sixteen entries as
//! 32-bit IEEE-754 bit patterns and never changes them.

use vstd::prelude::*;

verus! {

/// A 4x4 view-projection matrix, each entry the bit pattern of a 32-bit
/// float, in the memory order the uniform buffer expects (column-major).
#[derive(Clone, Copy, Debug, PartialEq, Eq)]
pub struct CameraUniform {
    pub view_projection: [u32; 16],
}

impl CameraUniform {
    /// Wrap sixteen matrix entries as a camera uniform.
    pub fn new(view_projection: [u32; 16]) -> (camera: CameraUniform)
        ensures
            camera.view_projection == view_projection,
    {
        CameraUniform { view_projection }
    }
}

} // verus!
