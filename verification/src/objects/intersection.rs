//! The intersection operator: the greatest of its children's distances.

use vstd::prelude::*;

use crate::error::SceneError;
use crate::math::{Vec3, Mat3, m_identity};
use crate::objects::{Object, wf, sdf, max_sdf_prefix, lemma_sdf_bounds,
    lemma_default_placement_local, obj_default_placement};

verus! {

/// An intersection of child nodes: a point is inside only when it is
/// inside every child, so the signed distance is the maximum over the
/// children.
#[derive(Debug)]
pub struct Intersection {
    pub objects: Vec<Object>,
    pub center: Vec3,
    pub inverse_orientation_matrix: Mat3,
}

impl Intersection {
    /// Wrap the given nodes, placed at the origin with the identity
    /// orientation. Fails with `DegenerateGeometry` exactly when the
    /// list is empty.
    pub fn from_objects(objects: Vec<Object>) -> (r: Result<Intersection, SceneError>)
        ensures
            r is Ok <==> objects.len() > 0,
            r is Ok ==> r->Ok_0 == (Intersection {
                objects,
                center: Vec3 { x: 0i64, y: 0i64, z: 0i64 },
                inverse_orientation_matrix: m_identity(),
            }),
            r is Err ==> r->Err_0 == SceneError::DegenerateGeometry,
    {
        if objects.len() == 0 {
            return Result::Err(SceneError::DegenerateGeometry);
        }
        Result::Ok(
            Intersection {
                objects,
                center: Vec3::zero(),
                inverse_orientation_matrix: Mat3::identity(),
            },
        )
    }

    /// `from_objects` with no further parameters to pick.
    pub fn from_objects_default(objects: Vec<Object>) -> (r: Result<Intersection, SceneError>)
        ensures
            r is Ok <==> objects.len() > 0,
            r is Ok ==> r->Ok_0 == (Intersection {
                objects,
                center: Vec3 { x: 0i64, y: 0i64, z: 0i64 },
                inverse_orientation_matrix: m_identity(),
            }),
            r is Err ==> r->Err_0 == SceneError::DegenerateGeometry,
    {
        Intersection::from_objects(objects)
    }

    /// The centered signed distance: the greatest world-space distance
    /// of the children at the local point.
    pub fn signed_distance_function_centered(&self, position: &Vec3) -> (r: i64)
        requires
            forall|i: int| 0 <= i < self.objects.len() ==> wf(#[trigger] self.objects[i]),
        ensures
            r as int == max_sdf_prefix(self.objects@, *position, self.objects@.len() as int),
        decreases self.objects@, 0int,
    {
        let mut worst: i64 = i64::MIN;
        let n = self.objects.len();
        let mut i: usize = 0;
        while i < n
            invariant
                0 <= i <= n,
                n == self.objects.len(),
                forall|k: int| 0 <= k < self.objects.len() ==> wf(#[trigger] self.objects[k]),
                worst as int == max_sdf_prefix(self.objects@, *position, i as int),
            decreases n - i,
        {
            let d = self.objects[i].signed_distance_function(position);
            if d > worst {
                worst = d;
            }
            i += 1;
        }
        worst
    }
}

/// The intersection of two nodes is the pointwise maximum of their
/// distances: for a two-child intersection with the default placement,
/// the distance at any point is the larger of the children's distances
/// there.
pub proof fn lemma_intersection_distance(a: Object, b: Object, it: Intersection, p: Vec3)
    requires
        it.objects@ == seq![a, b],
        obj_default_placement(Object::Intersection(it)),
    ensures
        sdf(Object::Intersection(it), p) == vstd::math::max(sdf(a, p), sdf(b, p)),
{
    lemma_default_placement_local(Object::Intersection(it), p);
    lemma_sdf_bounds(a, p);
    lemma_sdf_bounds(b, p);
    assert(it.objects@[0] == a && it.objects@[1] == b);
    assert(max_sdf_prefix(it.objects@, p, 0) == i64::MIN as int);
}

} // verus!
