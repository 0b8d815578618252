//! The fixed configuration of the renderer.
//!
//! Fixed-point values carry the real quantity scaled by
//! [`crate::fixed::FX_ONE`].

use vstd::prelude::*;

verus! {

/// The horizontal field of view in radians (0.8, fixed point).
pub const FOV: i64 = 3435973837;

/// The height-to-width ratio of a typical terminal cell (2.0, fixed
/// point).
pub const H_W_RATIO: i64 = 8589934592;

/// The number of character rows in the rendered grid.
pub const HEIGHT: i32 = 100;

/// The number of character columns in the rendered grid.
pub const WIDTH: i32 = 360;

/// The cap on sphere-tracing steps per ray.
pub const MAX_ITERATIONS: u16 = 275;

} // verus!
