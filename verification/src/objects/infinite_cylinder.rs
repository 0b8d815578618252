//! The infinite cylinder primitive.

use vstd::prelude::*;

use crate::error::SceneError;
use crate::fixed::{sat_sub, fx_div_spec, fx_div, fx_sub};
use crate::math::{Vec3, Mat3, m_identity, v_dot, v_sub, v_scale, v_norm};
use crate::objects::{Object, wf};

verus! {

/// A cylinder of infinite extent along its shaft axis.
#[derive(Clone, Copy, Debug, PartialEq, Eq, Structural)]
pub struct InfiniteCylinder {
    pub center: Vec3,
    pub radius: i64,
    pub shaft_axis: Vec3,
    pub inverse_orientation_matrix: Mat3,
}

/// The centered signed distance of an infinite cylinder: the distance of
/// the point from the shaft line, minus the radius. The component of `p`
/// along the axis is removed by subtracting the axis scaled by
/// `(p . axis) / (axis . axis)`.
pub open spec fn infinite_cylinder_sdf_centered(c: InfiniteCylinder, p: Vec3) -> int
    recommends
        v_dot(c.shaft_axis, c.shaft_axis) != 0,
{
    let s = fx_div_spec(v_dot(p, c.shaft_axis), v_dot(c.shaft_axis, c.shaft_axis));
    sat_sub(v_norm(v_sub(p, v_scale(s, c.shaft_axis))), c.radius as int)
}

impl InfiniteCylinder {
    /// Build an infinite cylinder around the line through `center` along
    /// `shaft_axis`. Fails with `DegenerateGeometry` exactly when the
    /// radius is not positive or the axis is too short to carry a
    /// direction (its fixed-point self dot product is zero).
    pub fn new(center: Vec3, radius: i64, shaft_axis: Vec3) -> (r: Result<
        InfiniteCylinder,
        SceneError,
    >)
        ensures
            r is Ok <==> radius > 0 && v_dot(shaft_axis, shaft_axis) > 0,
            r is Ok ==> r->Ok_0 == (InfiniteCylinder {
                center,
                radius,
                shaft_axis,
                inverse_orientation_matrix: m_identity(),
            }),
            r is Err ==> r->Err_0 == SceneError::DegenerateGeometry,
            r is Ok ==> wf(Object::InfiniteCylinder(r->Ok_0)),
    {
        proof {
            crate::math::lemma_v_dot_self_nonneg(shaft_axis);
        }
        let d = shaft_axis.dot(shaft_axis);
        if radius <= 0 || d == 0 {
            return Result::Err(SceneError::DegenerateGeometry);
        }
        Result::Ok(
            InfiniteCylinder {
                center,
                radius,
                shaft_axis,
                inverse_orientation_matrix: Mat3::identity(),
            },
        )
    }

    /// The centered signed distance: distance from the shaft line minus
    /// the radius.
    pub fn signed_distance_function_centered(&self, position: &Vec3) -> (r: i64)
        requires
            v_dot(self.shaft_axis, self.shaft_axis) != 0,
        ensures
            r as int == infinite_cylinder_sdf_centered(*self, *position),
    {
        let d = self.shaft_axis.dot(self.shaft_axis);
        let s = fx_div(position.dot(self.shaft_axis), d);
        let radial = position.sub(self.shaft_axis.scale(s));
        fx_sub(radial.norm(), self.radius)
    }
}

} // verus!
