//! The bounded cylinder: an infinite cylinder cut by two planes.

use vstd::prelude::*;

use crate::error::SceneError;
use crate::math::{Vec3, Mat3, m_identity, v_dot, v_add, v_scale, v_neg};
use crate::objects::{Object, wf, sdf, sdf_centered};
use crate::objects::infinite_cylinder::InfiniteCylinder;
use crate::objects::plane::Plane;
use crate::objects::intersection::Intersection;

verus! {

/// The children a bounded cylinder is assembled from: the infinite
/// cylinder around the shaft line, a plane facing away from the shaft at
/// the base, and a plane facing along the shaft at the top
/// (`base_center + height * shaft_axis`).
pub open spec fn cylinder_children(
    base_center: Vec3,
    height: int,
    radius: i64,
    shaft_axis: Vec3,
) -> Seq<Object> {
    seq![
        Object::InfiniteCylinder(
            InfiniteCylinder {
                center: base_center,
                radius,
                shaft_axis,
                inverse_orientation_matrix: m_identity(),
            },
        ),
        Object::Plane(
            Plane {
                r0: base_center,
                n: v_neg(shaft_axis),
                inverse_orientation_matrix: m_identity(),
            },
        ),
        Object::Plane(
            Plane {
                r0: v_add(base_center, v_scale(height, shaft_axis)),
                n: shaft_axis,
                inverse_orientation_matrix: m_identity(),
            },
        ),
    ]
}

/// A cylinder of finite height: the intersection of an infinite
/// cylinder with two bounding half-spaces.
#[derive(Debug)]
pub struct Cylinder {
    pub components: Intersection,
}

impl Cylinder {
    /// Build a cylinder whose base disc is centered at `base_center`,
    /// reaching `height` along `shaft_axis`. Fails with
    /// `DegenerateGeometry` exactly when the radius or height is not
    /// positive or the axis is too short to carry a direction.
    pub fn new(base_center: Vec3, height: i64, radius: i64, shaft_axis: Vec3) -> (r: Result<
        Cylinder,
        SceneError,
    >)
        ensures
            r is Ok <==> radius > 0 && height > 0 && v_dot(shaft_axis, shaft_axis) > 0,
            r is Ok ==> {
                let c = r->Ok_0.components;
                &&& c.objects@ == cylinder_children(base_center, height as int, radius, shaft_axis)
                &&& c.center == (Vec3 { x: 0i64, y: 0i64, z: 0i64 })
                &&& c.inverse_orientation_matrix == m_identity()
                &&& wf(Object::Intersection(c))
            },
            r is Err ==> r->Err_0 == SceneError::DegenerateGeometry,
    {
        proof {
            crate::math::lemma_v_dot_self_nonneg(shaft_axis);
        }
        if height <= 0 {
            return Result::Err(SceneError::DegenerateGeometry);
        }
        let tube = match InfiniteCylinder::new(base_center, radius, shaft_axis) {
            Result::Ok(t) => t,
            Result::Err(e) => {
                return Result::Err(e);
            },
        };
        let axis_neg = shaft_axis.neg();
        proof {
            if shaft_axis == (Vec3 { x: 0i64, y: 0i64, z: 0i64 }) {
                crate::fixed::lemma_fx_mul_zero(0);
                assert(v_dot(shaft_axis, shaft_axis) == 0);
            }
            if axis_neg == (Vec3 { x: 0i64, y: 0i64, z: 0i64 }) {
                assert(shaft_axis == (Vec3 { x: 0i64, y: 0i64, z: 0i64 }));
            }
        }
        let base = match Plane::new(base_center, axis_neg) {
            Result::Ok(p) => p,
            Result::Err(e) => {
                return Result::Err(e);
            },
        };
        let top = match Plane::new(base_center.add(shaft_axis.scale(height)), shaft_axis) {
            Result::Ok(p) => p,
            Result::Err(e) => {
                return Result::Err(e);
            },
        };
        let mut objects: Vec<Object> = Vec::new();
        objects.push(Object::InfiniteCylinder(tube));
        objects.push(Object::Plane(base));
        objects.push(Object::Plane(top));
        proof {
            assert(objects@ =~= cylinder_children(
                base_center,
                height as int,
                radius,
                shaft_axis,
            ));
        }
        let components = match Intersection::from_objects(objects) {
            Result::Ok(c) => c,
            Result::Err(e) => {
                return Result::Err(e);
            },
        };
        Result::Ok(Cylinder { components })
    }

    /// The cylinder seen as a scene node.
    pub fn into_object(self) -> (r: Object)
        ensures
            r == Object::Intersection(self.components),
    {
        Object::Intersection(self.components)
    }

    /// The centered signed distance of the underlying intersection.
    pub fn signed_distance_function_centered(&self, position: &Vec3) -> (r: i64)
        requires
            wf(Object::Intersection(self.components)),
        ensures
            r as int == sdf_centered(Object::Intersection(self.components), *position),
    {
        self.components.signed_distance_function_centered(position)
    }

    /// The world-space signed distance of the cylinder.
    pub fn signed_distance_function(&self, position: &Vec3) -> (r: i64)
        requires
            wf(Object::Intersection(self.components)),
        ensures
            r as int == sdf(Object::Intersection(self.components), *position),
    {
        let center = self.components.center;
        let inv = self.components.inverse_orientation_matrix;
        let local = inv.vec_mul(position.sub(center));
        self.components.signed_distance_function_centered(&local)
    }

    /// The world-space center of the cylinder.
    pub fn get_center(&self) -> (r: Vec3)
        ensures
            r == self.components.center,
    {
        self.components.center
    }

    /// The inverse-orientation matrix of the cylinder.
    pub fn get_inverse_orientation_matrix(&self) -> (r: Mat3)
        ensures
            r == self.components.inverse_orientation_matrix,
    {
        self.components.inverse_orientation_matrix
    }

    /// Translate the cylinder: its composition root's center moves and
    /// the children follow through the world-to-local transform.
    pub fn move_object(&mut self, translation_vector: &Vec3)
        ensures
            final(self).components.center == crate::math::v_add(
                old(self).components.center,
                *translation_vector,
            ),
            final(self).components.objects == old(self).components.objects,
            final(self).components.inverse_orientation_matrix == old(
                self,
            ).components.inverse_orientation_matrix,
    {
        self.components.center = self.components.center.add(*translation_vector);
    }
}

} // verus!
