//! The half-space primitive, bounded by a plane.

use vstd::prelude::*;

use crate::error::SceneError;
use crate::math::{Vec3, Mat3, m_identity, v_dot};
use crate::objects::{Object, wf};

verus! {

/// A filled half-space. `r0` is a point on the boundary plane and serves
/// as the center; `n` is a normal pointing away from the filled part,
/// into empty space.
#[derive(Clone, Copy, Debug, PartialEq, Eq, Structural)]
pub struct Plane {
    pub r0: Vec3,
    pub n: Vec3,
    pub inverse_orientation_matrix: Mat3,
}

/// The centered signed distance of a half-space: the dot product of the
/// point with the outward normal (positive means outside).
pub open spec fn plane_sdf_centered(pl: Plane, p: Vec3) -> int {
    v_dot(p, pl.n)
}

impl Plane {
    /// Build a half-space through `r0` with outward normal `n`. Fails
    /// with `DegenerateGeometry` exactly when `n` is the zero vector.
    pub fn new(r0: Vec3, n: Vec3) -> (r: Result<Plane, SceneError>)
        ensures
            r is Ok <==> n != (Vec3 { x: 0i64, y: 0i64, z: 0i64 }),
            r is Ok ==> r->Ok_0 == (Plane { r0, n, inverse_orientation_matrix: m_identity() }),
            r is Err ==> r->Err_0 == SceneError::DegenerateGeometry,
            r is Ok ==> wf(Object::Plane(r->Ok_0)),
    {
        if n.x == 0 && n.y == 0 && n.z == 0 {
            return Result::Err(SceneError::DegenerateGeometry);
        }
        Result::Ok(Plane { r0, n, inverse_orientation_matrix: Mat3::identity() })
    }

    /// The centered signed distance: `p . n`.
    pub fn signed_distance_function_centered(&self, position: &Vec3) -> (r: i64)
        ensures
            r as int == plane_sdf_centered(*self, *position),
    {
        position.dot(self.n)
    }
}

} // verus!
