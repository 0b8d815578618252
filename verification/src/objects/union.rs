//! The union operator: the least of its children's distances.

use vstd::prelude::*;

use crate::error::SceneError;
use crate::math::{Vec3, Mat3, m_identity};
use crate::objects::{Object, wf, sdf, min_sdf_prefix, lemma_sdf_bounds,
    lemma_default_placement_local, obj_default_placement};

verus! {

/// A union of child nodes: a point is inside when it is inside any
/// child, so the signed distance is the minimum over the children.
/// Exact for disjoint shapes and conservative near boundaries.
#[derive(Debug)]
pub struct Union {
    pub objects: Vec<Object>,
    pub center: Vec3,
    pub inverse_orientation_matrix: Mat3,
}

impl Union {
    /// Wrap the given nodes, placed at the origin with the identity
    /// orientation. Fails with `DegenerateGeometry` exactly when the
    /// list is empty.
    pub fn from_objects(objects: Vec<Object>) -> (r: Result<Union, SceneError>)
        ensures
            r is Ok <==> objects.len() > 0,
            r is Ok ==> r->Ok_0 == (Union {
                objects,
                center: Vec3 { x: 0i64, y: 0i64, z: 0i64 },
                inverse_orientation_matrix: m_identity(),
            }),
            r is Err ==> r->Err_0 == SceneError::DegenerateGeometry,
    {
        if objects.len() == 0 {
            return Result::Err(SceneError::DegenerateGeometry);
        }
        Result::Ok(
            Union { objects, center: Vec3::zero(), inverse_orientation_matrix: Mat3::identity() },
        )
    }

    /// `from_objects` with no further parameters to pick.
    pub fn from_objects_default(objects: Vec<Object>) -> (r: Result<Union, SceneError>)
        ensures
            r is Ok <==> objects.len() > 0,
            r is Ok ==> r->Ok_0 == (Union {
                objects,
                center: Vec3 { x: 0i64, y: 0i64, z: 0i64 },
                inverse_orientation_matrix: m_identity(),
            }),
            r is Err ==> r->Err_0 == SceneError::DegenerateGeometry,
    {
        Union::from_objects(objects)
    }

    /// The centered signed distance: the least world-space distance of
    /// the children at the local point.
    pub fn signed_distance_function_centered(&self, position: &Vec3) -> (r: i64)
        requires
            forall|i: int| 0 <= i < self.objects.len() ==> wf(#[trigger] self.objects[i]),
        ensures
            r as int == min_sdf_prefix(self.objects@, *position, self.objects@.len() as int),
        decreases self.objects@, 0int,
    {
        let mut best: i64 = i64::MAX;
        let n = self.objects.len();
        let mut i: usize = 0;
        while i < n
            invariant
                0 <= i <= n,
                n == self.objects.len(),
                forall|k: int| 0 <= k < self.objects.len() ==> wf(#[trigger] self.objects[k]),
                best as int == min_sdf_prefix(self.objects@, *position, i as int),
            decreases n - i,
        {
            let d = self.objects[i].signed_distance_function(position);
            if d < best {
                best = d;
            }
            i += 1;
        }
        best
    }
}

/// The union of two nodes is the pointwise minimum of their distances:
/// for a two-child union with the default placement, the distance at any
/// point is the smaller of the children's distances there.
pub proof fn lemma_union_distance(a: Object, b: Object, u: Union, p: Vec3)
    requires
        u.objects@ == seq![a, b],
        obj_default_placement(Object::Union(u)),
    ensures
        sdf(Object::Union(u), p) == vstd::math::min(sdf(a, p), sdf(b, p)),
{
    lemma_default_placement_local(Object::Union(u), p);
    lemma_sdf_bounds(a, p);
    lemma_sdf_bounds(b, p);
    assert(u.objects@[0] == a && u.objects@[1] == b);
    assert(min_sdf_prefix(u.objects@, p, 0) == i64::MAX as int);
}

} // verus!
