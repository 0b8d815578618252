//! The cuboid: a soft intersection of six axis-aligned half-spaces.

use vstd::prelude::*;

use crate::error::SceneError;
use crate::fixed::{FX_ONE, sat_neg, tz_div, fx_neg, tz_div_i64};
use crate::math::{Vec3, Mat3, m_identity};
use crate::objects::{Object, wf, sdf, sdf_centered};
use crate::objects::plane::Plane;
use crate::objects::soft_intersection::SoftIntersection;

verus! {

/// The six half-spaces a cuboid is cut from: one pair per axis, at
/// plus and minus half the side length, with outward normals.
pub open spec fn cuboid_children(side_a: i64, side_b: i64, side_c: i64) -> Seq<Object> {
    let ha = tz_div(side_a as int, 2);
    let hb = tz_div(side_b as int, 2);
    let hc = tz_div(side_c as int, 2);
    seq![
        Object::Plane(
            Plane {
                r0: Vec3 { x: sat_neg(ha) as i64, y: 0i64, z: 0i64 },
                n: Vec3 { x: sat_neg(FX_ONE as int) as i64, y: 0i64, z: 0i64 },
                inverse_orientation_matrix: m_identity(),
            },
        ),
        Object::Plane(
            Plane {
                r0: Vec3 { x: ha as i64, y: 0i64, z: 0i64 },
                n: Vec3 { x: FX_ONE, y: 0i64, z: 0i64 },
                inverse_orientation_matrix: m_identity(),
            },
        ),
        Object::Plane(
            Plane {
                r0: Vec3 { x: 0i64, y: sat_neg(hb) as i64, z: 0i64 },
                n: Vec3 { x: 0i64, y: sat_neg(FX_ONE as int) as i64, z: 0i64 },
                inverse_orientation_matrix: m_identity(),
            },
        ),
        Object::Plane(
            Plane {
                r0: Vec3 { x: 0i64, y: hb as i64, z: 0i64 },
                n: Vec3 { x: 0i64, y: FX_ONE, z: 0i64 },
                inverse_orientation_matrix: m_identity(),
            },
        ),
        Object::Plane(
            Plane {
                r0: Vec3 { x: 0i64, y: 0i64, z: sat_neg(hc) as i64 },
                n: Vec3 { x: 0i64, y: 0i64, z: sat_neg(FX_ONE as int) as i64 },
                inverse_orientation_matrix: m_identity(),
            },
        ),
        Object::Plane(
            Plane {
                r0: Vec3 { x: 0i64, y: 0i64, z: hc as i64 },
                n: Vec3 { x: 0i64, y: 0i64, z: FX_ONE },
                inverse_orientation_matrix: m_identity(),
            },
        ),
    ]
}

/// The smoothing a cuboid is built with: the largest side over 100, so
/// corners are rounded in proportion to the shape's size.
pub open spec fn cuboid_smoothing(side_a: i64, side_b: i64, side_c: i64) -> int {
    tz_div(vstd::math::max3(side_a as int, side_b as int, side_c as int), 100)
}

/// A box with the given side lengths along the three local axes,
/// assembled as a soft intersection of six half-spaces.
#[derive(Debug)]
pub struct Cuboid {
    pub components: SoftIntersection,
    pub side_a: i64,
    pub side_b: i64,
    pub side_c: i64,
}

impl Cuboid {
    /// Build a cuboid with sides `side_a`, `side_b`, `side_c`. Fails
    /// with `DegenerateGeometry` exactly when a side is not positive.
    pub fn new(side_a: i64, side_b: i64, side_c: i64) -> (r: Result<Cuboid, SceneError>)
        ensures
            r is Ok <==> side_a > 0 && side_b > 0 && side_c > 0,
            r is Ok ==> {
                let cb = r->Ok_0;
                &&& cb.side_a == side_a && cb.side_b == side_b && cb.side_c == side_c
                &&& cb.components.objects@ == cuboid_children(side_a, side_b, side_c)
                &&& cb.components.center == (Vec3 { x: 0i64, y: 0i64, z: 0i64 })
                &&& cb.components.inverse_orientation_matrix == m_identity()
                &&& cb.components.smu_epsilon as int == cuboid_smoothing(side_a, side_b, side_c)
                &&& wf(Object::SoftIntersection(cb.components))
            },
            r is Err ==> r->Err_0 == SceneError::DegenerateGeometry,
    {
        if side_a <= 0 || side_b <= 0 || side_c <= 0 {
            return Result::Err(SceneError::DegenerateGeometry);
        }
        let longest = if side_a >= side_b {
            side_a
        } else {
            side_b
        };
        let longest = if longest >= side_c {
            longest
        } else {
            side_c
        };
        let smoothing = tz_div_i64(longest, 100);
        proof {
            vstd::arithmetic::div_mod::lemma_div_pos_is_pos(longest as int, 100);
        }
        let ha = tz_div_i64(side_a, 2);
        let hb = tz_div_i64(side_b, 2);
        let hc = tz_div_i64(side_c, 2);
        proof {
            vstd::arithmetic::div_mod::lemma_div_pos_is_pos(side_a as int, 2);
            vstd::arithmetic::div_mod::lemma_div_pos_is_pos(side_b as int, 2);
            vstd::arithmetic::div_mod::lemma_div_pos_is_pos(side_c as int, 2);
        }
        let neg_one = fx_neg(FX_ONE);
        let mut objects: Vec<Object> = Vec::new();
        objects.push(Object::Plane(Plane {
            r0: Vec3 { x: fx_neg(ha), y: 0, z: 0 },
            n: Vec3 { x: neg_one, y: 0, z: 0 },
            inverse_orientation_matrix: Mat3::identity(),
        }));
        objects.push(Object::Plane(Plane {
            r0: Vec3 { x: ha, y: 0, z: 0 },
            n: Vec3 { x: FX_ONE, y: 0, z: 0 },
            inverse_orientation_matrix: Mat3::identity(),
        }));
        objects.push(Object::Plane(Plane {
            r0: Vec3 { x: 0, y: fx_neg(hb), z: 0 },
            n: Vec3 { x: 0, y: neg_one, z: 0 },
            inverse_orientation_matrix: Mat3::identity(),
        }));
        objects.push(Object::Plane(Plane {
            r0: Vec3 { x: 0, y: hb, z: 0 },
            n: Vec3 { x: 0, y: FX_ONE, z: 0 },
            inverse_orientation_matrix: Mat3::identity(),
        }));
        objects.push(Object::Plane(Plane {
            r0: Vec3 { x: 0, y: 0, z: fx_neg(hc) },
            n: Vec3 { x: 0, y: 0, z: neg_one },
            inverse_orientation_matrix: Mat3::identity(),
        }));
        objects.push(Object::Plane(Plane {
            r0: Vec3 { x: 0, y: 0, z: hc },
            n: Vec3 { x: 0, y: 0, z: FX_ONE },
            inverse_orientation_matrix: Mat3::identity(),
        }));
        proof {
            assert(objects@ =~= cuboid_children(side_a, side_b, side_c));
        }
        let components = match SoftIntersection::from_objects(objects, smoothing) {
            Result::Ok(c) => c,
            Result::Err(e) => {
                return Result::Err(e);
            },
        };
        proof {
            let ch = cuboid_children(side_a, side_b, side_c);
            assert forall|i: int| 0 <= i < components.objects.len() implies wf(
                #[trigger] components.objects[i],
            ) by {
                assert(components.objects[i] == ch[i]);
                if i == 0 {
                    assert(wf(ch[0]));
                } else if i == 1 {
                    assert(wf(ch[1]));
                } else if i == 2 {
                    assert(wf(ch[2]));
                } else if i == 3 {
                    assert(wf(ch[3]));
                } else if i == 4 {
                    assert(wf(ch[4]));
                } else {
                    assert(wf(ch[5]));
                }
            }
        }
        Result::Ok(Cuboid { components, side_a, side_b, side_c })
    }

    /// The cuboid seen as a scene node.
    pub fn into_object(self) -> (r: Object)
        ensures
            r == Object::SoftIntersection(self.components),
    {
        Object::SoftIntersection(self.components)
    }

    /// The centered signed distance of the underlying soft intersection.
    pub fn signed_distance_function_centered(&self, position: &Vec3) -> (r: i64)
        requires
            wf(Object::SoftIntersection(self.components)),
        ensures
            r as int == sdf_centered(Object::SoftIntersection(self.components), *position),
    {
        self.components.signed_distance_function_centered(position)
    }

    /// The world-space signed distance of the cuboid.
    pub fn signed_distance_function(&self, position: &Vec3) -> (r: i64)
        requires
            wf(Object::SoftIntersection(self.components)),
        ensures
            r as int == sdf(Object::SoftIntersection(self.components), *position),
    {
        let center = self.components.center;
        let inv = self.components.inverse_orientation_matrix;
        let local = inv.vec_mul(position.sub(center));
        self.components.signed_distance_function_centered(&local)
    }

    /// The world-space center of the cuboid.
    pub fn get_center(&self) -> (r: Vec3)
        ensures
            r == self.components.center,
    {
        self.components.center
    }

    /// The inverse-orientation matrix of the cuboid.
    pub fn get_inverse_orientation_matrix(&self) -> (r: Mat3)
        ensures
            r == self.components.inverse_orientation_matrix,
    {
        self.components.inverse_orientation_matrix
    }

    /// Translate the cuboid: its composition root's center moves and the
    /// half-spaces follow through the world-to-local transform.
    pub fn move_object(&mut self, translation_vector: &Vec3)
        ensures
            final(self).components.center == crate::math::v_add(
                old(self).components.center,
                *translation_vector,
            ),
            final(self).components.objects == old(self).components.objects,
            final(self).components.inverse_orientation_matrix == old(
                self,
            ).components.inverse_orientation_matrix,
            final(self).components.smu_epsilon == old(self).components.smu_epsilon,
            final(self).side_a == old(self).side_a,
            final(self).side_b == old(self).side_b,
            final(self).side_c == old(self).side_c,
    {
        self.components.center = self.components.center.add(*translation_vector);
    }
}

} // verus!
