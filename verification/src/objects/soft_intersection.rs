//! The soft intersection operator: a smooth maximum of the two
//! least-satisfied children.

use vstd::prelude::*;

use crate::error::SceneError;
use crate::math::{Vec3, Mat3, m_identity};
use crate::objects::{Object, wf, best_two_spec};
use crate::objects::soft_union::DEFAULT_SMU_EPSILON;
use crate::objects::utility_functions::{smu_spec, best_two_distances, smooth_maximum_unit};

verus! {

/// A soft intersection: the two largest child distances enter a smooth
/// maximum, rounding off the crease where the children's boundaries
/// meet.
#[derive(Debug)]
pub struct SoftIntersection {
    pub objects: Vec<Object>,
    pub center: Vec3,
    pub inverse_orientation_matrix: Mat3,
    pub smu_epsilon: i64,
}

impl SoftIntersection {
    /// Wrap the given nodes, placed at the origin with the identity
    /// orientation. Fails with `DegenerateGeometry` exactly when the
    /// list is empty or the smoothing parameter is negative.
    pub fn from_objects(objects: Vec<Object>, smu_epsilon: i64) -> (r: Result<
        SoftIntersection,
        SceneError,
    >)
        ensures
            r is Ok <==> objects.len() > 0 && smu_epsilon >= 0,
            r is Ok ==> r->Ok_0 == (SoftIntersection {
                objects,
                center: Vec3 { x: 0i64, y: 0i64, z: 0i64 },
                inverse_orientation_matrix: m_identity(),
                smu_epsilon,
            }),
            r is Err ==> r->Err_0 == SceneError::DegenerateGeometry,
    {
        if objects.len() == 0 || smu_epsilon < 0 {
            return Result::Err(SceneError::DegenerateGeometry);
        }
        Result::Ok(
            SoftIntersection {
                objects,
                center: Vec3::zero(),
                inverse_orientation_matrix: Mat3::identity(),
                smu_epsilon,
            },
        )
    }

    /// `from_objects` with the default smoothing parameter.
    pub fn from_objects_default(objects: Vec<Object>) -> (r: Result<
        SoftIntersection,
        SceneError,
    >)
        ensures
            r is Ok <==> objects.len() > 0,
            r is Ok ==> r->Ok_0 == (SoftIntersection {
                objects,
                center: Vec3 { x: 0i64, y: 0i64, z: 0i64 },
                inverse_orientation_matrix: m_identity(),
                smu_epsilon: DEFAULT_SMU_EPSILON,
            }),
            r is Err ==> r->Err_0 == SceneError::DegenerateGeometry,
    {
        SoftIntersection::from_objects(objects, DEFAULT_SMU_EPSILON)
    }

    /// The centered signed distance: the smooth maximum of the two
    /// largest child distances.
    pub fn signed_distance_function_centered(&self, position: &Vec3) -> (r: i64)
        requires
            self.smu_epsilon >= 0,
            forall|i: int| 0 <= i < self.objects.len() ==> wf(#[trigger] self.objects[i]),
        ensures
            r as int == {
                let pair = best_two_spec(self.objects@, *position, false);
                smu_spec(pair.0, pair.1, self.smu_epsilon as int)
            },
        decreases self.objects@, 1int,
    {
        let (best, second) = best_two_distances(&self.objects, position, false);
        smooth_maximum_unit(best, second, self.smu_epsilon)
    }
}

} // verus!
