//! The maths module: the `Vector3D` and `Matrix3D` value types, and the
//! `Maths` marker type that names the module's public surface.

use vstd::prelude::*;

pub mod matrix_3;
pub mod vector_3;

pub use matrix_3::Matrix3D;
pub use vector_3::Vector3D;

verus! {

/// Marker type for the maths module.
#[derive(Debug, PartialEq, Eq, Structural)]
pub struct Maths;

impl Maths {
    /// Produces the marker value.
    pub fn new() -> (r: Self)
        ensures
            r == Maths,
    {
        Self
    }
}

} // verus!
