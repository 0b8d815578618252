//! The sphere primitive.

use vstd::prelude::*;

use crate::error::SceneError;
use crate::fixed::sat_sub;
use crate::math::{Vec3, Mat3, m_identity, v_norm};
use crate::objects::{Object, sdf, wf, obj_default_placement};
use crate::fixed::fx_sub;

verus! {

/// A ball: all points within `radius` of `center`.
#[derive(Clone, Copy, Debug, PartialEq, Eq, Structural)]
pub struct Sphere {
    pub center: Vec3,
    pub radius: i64,
    pub inverse_orientation_matrix: Mat3,
}

/// The centered signed distance of a sphere: the norm of the point minus
/// the radius.
pub open spec fn sphere_sdf_centered(s: Sphere, p: Vec3) -> int {
    sat_sub(v_norm(p), s.radius as int)
}

impl Sphere {
    /// Build a sphere. Fails with `DegenerateGeometry` exactly when the
    /// radius is not positive. Its orientation starts as the identity
    /// (rotations of a sphere do not matter).
    pub fn new(center: Vec3, radius: i64) -> (r: Result<Sphere, SceneError>)
        ensures
            r is Ok <==> radius > 0,
            r is Ok ==> r->Ok_0 == (Sphere {
                center,
                radius,
                inverse_orientation_matrix: m_identity(),
            }),
            r is Err ==> r->Err_0 == SceneError::DegenerateGeometry,
            r is Ok ==> wf(Object::Sphere(r->Ok_0)),
    {
        if radius <= 0 {
            return Result::Err(SceneError::DegenerateGeometry);
        }
        Result::Ok(Sphere { center, radius, inverse_orientation_matrix: Mat3::identity() })
    }

    /// The centered signed distance: `|p| - radius`.
    pub fn signed_distance_function_centered(&self, position: &Vec3) -> (r: i64)
        ensures
            r as int == sphere_sdf_centered(*self, *position),
    {
        fx_sub(position.norm(), self.radius)
    }
}

/// For a sphere centered at the origin with the identity orientation, the
/// signed distance at any point is the point's norm minus the radius, and
/// it is zero exactly where the norm equals the radius.
pub proof fn lemma_sphere_distance(s: Sphere, p: Vec3)
    requires
        obj_default_placement(Object::Sphere(s)),
        wf(Object::Sphere(s)),
    ensures
        sdf(Object::Sphere(s), p) == sat_sub(v_norm(p), s.radius as int),
        sdf(Object::Sphere(s), p) == 0 <==> v_norm(p) == s.radius,
{
    crate::objects::lemma_default_placement_local(Object::Sphere(s), p);
}

} // verus!
