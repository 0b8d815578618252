//! A terminal ray marcher over signed-distance fields, with a verified core.
//!
//! Geometry is described by a scene graph of signed-distance functions:
//! leaf primitives (sphere, plane, infinite cylinder), composition operators
//! (union, intersection, and their smooth variants), and compound shapes
//! built from them. A camera marches rays through the scene and shades each
//! hit with a character from a fixed brightness ramp; a rigid-body
//! propagator spins a compound shape under conserved angular momentum.
//!
//! All quantities are fixed-point numbers: an `i64` holding the real value
//! scaled by [`fixed::FX_ONE`]. Every operation has an exact contract over
//! that representation.

pub mod constants;
pub mod error;
pub mod fixed;
pub mod math;
pub mod objects;
pub mod rigid_body;
pub mod scene;
pub mod screen;

pub use fixed::FX_ONE;
