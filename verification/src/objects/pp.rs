//! A sample multi-part figure, built only from primitives and operators.

use vstd::prelude::*;

use crate::fixed::{FX_ONE, fx_neg};
use crate::math::{Vec3, m_identity, unit_z};
use crate::objects::{Object, wf, sdf, sdf_centered};
use crate::objects::sphere::Sphere;
use crate::objects::plane::Plane;
use crate::objects::cylinder::{Cylinder, cylinder_children};
use crate::objects::soft_intersection::SoftIntersection;
use crate::objects::soft_union::{SoftUnion, DEFAULT_SMU_EPSILON};

verus! {

/// The head of the figure: a sphere cut flat from below.
pub open spec fn pp_head_children() -> Seq<Object> {
    seq![
        Object::Sphere(
            Sphere {
                center: Vec3 { x: 0i64, y: 0i64, z: 38654705664i64 },
                radius: 8589934592i64,
                inverse_orientation_matrix: m_identity(),
            },
        ),
        Object::Plane(
            Plane {
                r0: Vec3 { x: 0i64, y: 0i64, z: 38654705664i64 },
                n: Vec3 { x: 0i64, y: 0i64, z: -4294967296i64 },
                inverse_orientation_matrix: m_identity(),
            },
        ),
    ]
}

/// A figure of two unit-offset spheres, a shaft along the third axis,
/// and a flattened sphere on top, blended by a soft union.
#[derive(Debug)]
pub struct PP {
    pub components: SoftUnion,
}

impl PP {
    /// Assemble the figure with its fixed proportions: spheres of radius
    /// two on either side, a shaft of height nine and radius one and a
    /// half along the third axis, and the head at its top.
    pub fn default() -> (r: PP)
        ensures
            ({
                let su = r.components;
                &&& su.smu_epsilon == DEFAULT_SMU_EPSILON
                &&& su.center == (Vec3 { x: 0i64, y: 0i64, z: 0i64 })
                &&& su.inverse_orientation_matrix == m_identity()
                &&& su.objects@.len() == 4
                &&& su.objects@[0] == Object::Sphere(
                    Sphere {
                        center: Vec3 { x: -4294967296i64, y: 0i64, z: 0i64 },
                        radius: 8589934592i64,
                        inverse_orientation_matrix: m_identity(),
                    },
                )
                &&& su.objects@[1] == Object::Sphere(
                    Sphere {
                        center: Vec3 { x: 4294967296i64, y: 0i64, z: 0i64 },
                        radius: 8589934592i64,
                        inverse_orientation_matrix: m_identity(),
                    },
                )
                &&& su.objects@[2] is Intersection
                &&& su.objects@[2]->Intersection_0.objects@ == cylinder_children(
                    Vec3 { x: 0i64, y: 0i64, z: 0i64 },
                    38654705664int,
                    6442450944i64,
                    Vec3 { x: 0i64, y: 0i64, z: FX_ONE },
                )
                &&& su.objects@[2]->Intersection_0.center == (Vec3 { x: 0i64, y: 0i64, z: 0i64 })
                &&& su.objects@[2]->Intersection_0.inverse_orientation_matrix == m_identity()
                &&& su.objects@[3] is SoftIntersection
                &&& su.objects@[3]->SoftIntersection_0.objects@ == pp_head_children()
                &&& su.objects@[3]->SoftIntersection_0.smu_epsilon == DEFAULT_SMU_EPSILON
                &&& su.objects@[3]->SoftIntersection_0.center == (Vec3 {
                    x: 0i64,
                    y: 0i64,
                    z: 0i64,
                })
                &&& su.objects@[3]->SoftIntersection_0.inverse_orientation_matrix == m_identity()
                &&& wf(Object::SoftUnion(su))
            }),
    {
        let two: i64 = 8589934592;  // the fixed-point 2
        let left = match Sphere::new(Vec3::new(fx_neg(FX_ONE), 0, 0), two) {
            Result::Ok(s) => s,
            Result::Err(_) => {
                return vstd::pervasive::unreached();
            },
        };
        let right = match Sphere::new(Vec3::new(FX_ONE, 0, 0), two) {
            Result::Ok(s) => s,
            Result::Err(_) => {
                return vstd::pervasive::unreached();
            },
        };
        proof {
            crate::fixed::lemma_fx_mul_one(FX_ONE as int);
            crate::fixed::lemma_fx_mul_zero(0);
        }
        let shaft = match Cylinder::new(Vec3::zero(), 38654705664, 6442450944, unit_z()) {
            Result::Ok(c) => c,
            Result::Err(_) => {
                return vstd::pervasive::unreached();
            },
        };
        let head_sphere = match Sphere::new(Vec3::new(0, 0, 38654705664), two) {
            Result::Ok(s) => s,
            Result::Err(_) => {
                return vstd::pervasive::unreached();
            },
        };
        let head_plane = match Plane::new(
            Vec3::new(0, 0, 38654705664),
            Vec3::new(0, 0, fx_neg(FX_ONE)),
        ) {
            Result::Ok(p) => p,
            Result::Err(_) => {
                return vstd::pervasive::unreached();
            },
        };
        let mut head_parts: Vec<Object> = Vec::new();
        head_parts.push(Object::Sphere(head_sphere));
        head_parts.push(Object::Plane(head_plane));
        proof {
            assert(head_parts@ =~= pp_head_children());
        }
        let head = match SoftIntersection::from_objects_default(head_parts) {
            Result::Ok(h) => h,
            Result::Err(_) => {
                return vstd::pervasive::unreached();
            },
        };
        let mut parts: Vec<Object> = Vec::new();
        parts.push(Object::Sphere(left));
        parts.push(Object::Sphere(right));
        parts.push(shaft.into_object());
        parts.push(Object::SoftIntersection(head));
        let components = match SoftUnion::from_objects_default(parts) {
            Result::Ok(c) => c,
            Result::Err(_) => {
                return vstd::pervasive::unreached();
            },
        };
        proof {
            let su = components;
            assert forall|i: int| 0 <= i < su.objects.len() implies wf(
                #[trigger] su.objects[i],
            ) by {
                if i == 3 {
                    let hd = su.objects[3];
                    assert(hd is SoftIntersection);
                    assert forall|j: int| 0 <= j < hd->SoftIntersection_0.objects.len() implies wf(
                        #[trigger] hd->SoftIntersection_0.objects[j],
                    ) by {
                        assert(hd->SoftIntersection_0.objects@ == pp_head_children());
                        if j == 0 {
                            assert(wf(pp_head_children()[0]));
                        } else {
                            assert(wf(pp_head_children()[1]));
                        }
                    }
                }
            }
        }
        PP { components }
    }

    /// The figure seen as a scene node.
    pub fn into_object(self) -> (r: Object)
        ensures
            r == Object::SoftUnion(self.components),
    {
        Object::SoftUnion(self.components)
    }

    /// The centered signed distance of the underlying soft union.
    pub fn signed_distance_function_centered(&self, position: &Vec3) -> (r: i64)
        requires
            wf(Object::SoftUnion(self.components)),
        ensures
            r as int == sdf_centered(Object::SoftUnion(self.components), *position),
    {
        self.components.signed_distance_function_centered(position)
    }

    /// The world-space signed distance of the figure.
    pub fn signed_distance_function(&self, position: &Vec3) -> (r: i64)
        requires
            wf(Object::SoftUnion(self.components)),
        ensures
            r as int == sdf(Object::SoftUnion(self.components), *position),
    {
        let center = self.components.center;
        let inv = self.components.inverse_orientation_matrix;
        let local = inv.vec_mul(position.sub(center));
        self.components.signed_distance_function_centered(&local)
    }

    /// The world-space center of the figure.
    pub fn get_center(&self) -> (r: Vec3)
        ensures
            r == self.components.center,
    {
        self.components.center
    }

    /// Translate the figure: its composition root's center moves and all
    /// parts follow through the world-to-local transform.
    pub fn move_object(&mut self, translation_vector: &Vec3)
        ensures
            final(self).components.center == crate::math::v_add(
                old(self).components.center,
                *translation_vector,
            ),
            final(self).components.objects == old(self).components.objects,
            final(self).components.inverse_orientation_matrix == old(
                self,
            ).components.inverse_orientation_matrix,
            final(self).components.smu_epsilon == old(self).components.smu_epsilon,
    {
        self.components.center = self.components.center.add(*translation_vector);
    }
}

} // verus!
