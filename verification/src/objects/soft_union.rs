//! The soft union operator: a smooth minimum of the two closest children.

use vstd::prelude::*;

use crate::error::SceneError;
use crate::fixed::{FX_ONE, sat_neg, abs_int, sqrt_floor, fx_neg};
use crate::math::{Vec3, Mat3, m_identity};
use crate::objects::{
    Object, wf, sdf, best_two_spec, best_two_prefix, obj_default_placement,
    lemma_default_placement_local,
};
use crate::objects::utility_functions::{
    smu_spec, best_two_distances, smooth_maximum_unit, lemma_smu_close_to_max,
};

verus! {

/// The default smoothing parameter of the soft operators (0.05 in fixed
/// point).
pub const DEFAULT_SMU_EPSILON: i64 = 214748365;

/// A soft union: close to where two children meet it blends them
/// smoothly instead of leaving a sharp crease. The two closest children
/// enter a smooth minimum; the smoothing parameter controls the width of
/// the blend.
#[derive(Debug)]
pub struct SoftUnion {
    pub objects: Vec<Object>,
    pub center: Vec3,
    pub inverse_orientation_matrix: Mat3,
    pub smu_epsilon: i64,
}

impl SoftUnion {
    /// Wrap the given nodes, placed at the origin with the identity
    /// orientation. Fails with `DegenerateGeometry` exactly when the
    /// list is empty or the smoothing parameter is negative.
    pub fn from_objects(objects: Vec<Object>, smu_epsilon: i64) -> (r: Result<
        SoftUnion,
        SceneError,
    >)
        ensures
            r is Ok <==> objects.len() > 0 && smu_epsilon >= 0,
            r is Ok ==> r->Ok_0 == (SoftUnion {
                objects,
                center: Vec3 { x: 0i64, y: 0i64, z: 0i64 },
                inverse_orientation_matrix: m_identity(),
                smu_epsilon,
            }),
            r is Err ==> r->Err_0 == SceneError::DegenerateGeometry,
    {
        if objects.len() == 0 || smu_epsilon < 0 {
            return Result::Err(SceneError::DegenerateGeometry);
        }
        Result::Ok(
            SoftUnion {
                objects,
                center: Vec3::zero(),
                inverse_orientation_matrix: Mat3::identity(),
                smu_epsilon,
            },
        )
    }

    /// `from_objects` with the default smoothing parameter.
    pub fn from_objects_default(objects: Vec<Object>) -> (r: Result<SoftUnion, SceneError>)
        ensures
            r is Ok <==> objects.len() > 0,
            r is Ok ==> r->Ok_0 == (SoftUnion {
                objects,
                center: Vec3 { x: 0i64, y: 0i64, z: 0i64 },
                inverse_orientation_matrix: m_identity(),
                smu_epsilon: DEFAULT_SMU_EPSILON,
            }),
            r is Err ==> r->Err_0 == SceneError::DegenerateGeometry,
    {
        SoftUnion::from_objects(objects, DEFAULT_SMU_EPSILON)
    }

    /// The centered signed distance: the smooth minimum of the two
    /// closest children, `-smu(-best, -second_best, epsilon)`.
    pub fn signed_distance_function_centered(&self, position: &Vec3) -> (r: i64)
        requires
            self.smu_epsilon >= 0,
            forall|i: int| 0 <= i < self.objects.len() ==> wf(#[trigger] self.objects[i]),
        ensures
            r as int == {
                let pair = best_two_spec(self.objects@, *position, true);
                sat_neg(smu_spec(sat_neg(pair.0), sat_neg(pair.1), self.smu_epsilon as int))
            },
        decreases self.objects@, 1int,
    {
        let (best, second) = best_two_distances(&self.objects, position, true);
        fx_neg(smooth_maximum_unit(fx_neg(best), fx_neg(second), self.smu_epsilon))
    }
}

/// As the smoothing parameter goes to zero, the soft union degrades to
/// the hard union: for a two-child soft union with the default
/// placement, twice the gap between its distance and the hard minimum of
/// the children's distances is bounded by the fixed-point square root of
/// the smoothing parameter plus one unit of resolution, a band that
/// shrinks with the parameter down to the rounding floor.
pub proof fn lemma_soft_union_approaches_union(a: Object, b: Object, su: SoftUnion, p: Vec3)
    requires
        su.objects@ == seq![a, b],
        obj_default_placement(Object::SoftUnion(su)),
        0 <= su.smu_epsilon <= 1099511627776,
        abs_int(sdf(a, p)) <= 1099511627776,
        abs_int(sdf(b, p)) <= 1099511627776,
    ensures
        abs_int(
            2 * (sdf(Object::SoftUnion(su), p) - vstd::math::min(sdf(a, p), sdf(b, p))),
        ) <= sqrt_floor(su.smu_epsilon * FX_ONE as int) + 65538,
{
    lemma_default_placement_local(Object::SoftUnion(su), p);
    let da = sdf(a, p);
    let db = sdf(b, p);
    assert(su.objects@[0] == a && su.objects@[1] == b);
    assert(best_two_prefix(su.objects@, p, true, 0) == (i64::MAX as int, i64::MAX as int));
    let pair = best_two_spec(su.objects@, p, true);
    assert(pair.0 == vstd::math::min(da, db) && pair.1 == vstd::math::max(da, db));
    let e = su.smu_epsilon as int;
    lemma_smu_close_to_max(sat_neg(pair.0), sat_neg(pair.1), e);
    assert(sat_neg(pair.0) == -pair.0 && sat_neg(pair.1) == -pair.1);
    assert(vstd::math::max(-pair.0, -pair.1) == -vstd::math::min(da, db));
    let smu = smu_spec(sat_neg(pair.0), sat_neg(pair.1), e);
    assert(abs_int(2 * (smu - (-vstd::math::min(da, db)))) <= sqrt_floor(e * FX_ONE as int)
        + 65538);
    assert(abs_int(smu) <= 1099511627776 + 34359738369 + 32769) by {
        assert(e * FX_ONE as int <= 4722366482869645213696 && e * FX_ONE as int >= 0)
            by (nonlinear_arith)
            requires
                0 <= e <= 1099511627776,
                FX_ONE == 4294967296,
        ;
        crate::fixed::lemma_sqrt_floor_monotone(e * FX_ONE as int, 4722366482869645213696);
        crate::fixed::lemma_sqrt_floor_square(68719476736);
        assert(4722366482869645213696 == 68719476736 * 68719476736) by (nonlinear_arith);
        assert(sqrt_floor(e * FX_ONE as int) <= 68719476736);
        assert(abs_int(vstd::math::min(da, db)) <= 1099511627776);
    }
    assert(sdf(Object::SoftUnion(su), p) == sat_neg(smu));
    assert(sat_neg(smu) == -smu);
}

} // verus!
