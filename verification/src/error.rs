//! The error kinds the scene operations report.
//!
//! None of them is retried: each is terminal for the operation that raised
//! it and is handed back to the caller.

use vstd::prelude::*;

verus! {

/// What went wrong while building or driving a scene.
#[derive(Clone, Copy, Debug, PartialEq, Eq, Structural)]
pub enum SceneError {
    /// A supplied orientation matrix is not invertible.
    InvalidOrientation,
    /// A primitive was built with invalid parameters (zero-length axis,
    /// non-positive radius or side length, or an empty child list).
    DegenerateGeometry,
    /// The rigid-body propagator was handed values it cannot integrate,
    /// such as a non-positive rotational energy.
    DegenerateConfiguration,
}

impl SceneError {
    /// A short human-readable name of the error kind.
    pub fn describe(self) -> (r: &'static str)
        ensures
            self is InvalidOrientation ==> r@ == "invalid orientation"@,
            self is DegenerateGeometry ==> r@ == "degenerate geometry"@,
            self is DegenerateConfiguration ==> r@ == "degenerate configuration"@,
    {
        match self {
            SceneError::InvalidOrientation => "invalid orientation",
            SceneError::DegenerateGeometry => "degenerate geometry",
            SceneError::DegenerateConfiguration => "degenerate configuration",
        }
    }
}

} // verus!
