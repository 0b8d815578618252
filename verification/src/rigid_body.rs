//! Free rotation of a rigid cuboid under conserved angular momentum.
//!
//! One integration step computes the angular velocity from the constant
//! momentum, rescales it so the rotational energy matches the target
//! (correcting the drift explicit Euler integration accumulates), takes
//! an Euler step of the rotation matrix, and restores orthogonality by
//! Gram-Schmidt with a cycling pivot so the correction bias does not
//! concentrate on one axis.

use vstd::prelude::*;

use crate::error::SceneError;
use crate::fixed::{
    FX_ONE, sat_i64, sat_add, tz_div, fx_mul_spec, fx_sqrt_spec, fx_add, fx_mul, fx_sqrt, fx_div,
    fx_div_spec, tz_div_i64,
};
use crate::math::{
    Vec3, Mat3, m_identity, m_inverse, m_mul, m_scale, m_add, m_vec_mul, v_dot, v_div,
    v_cross_matrix, gram_schmidt_spec, gram_schmidt_orthogonalization,
};
use crate::objects::{Object, wf};
use crate::objects::cuboid::{Cuboid, cuboid_children, cuboid_smoothing};

verus! {

/// The principal moment of inertia of a cuboid with sides `a`, `b`, `c`
/// and unit mass: the diagonal of `(b^2+c^2, a^2+c^2, a^2+b^2) / 12`.
pub open spec fn cuboid_moment_spec(side_a: int, side_b: int, side_c: int) -> Mat3 {
    let e0 = sat_i64(tz_div(sat_add(fx_mul_spec(side_b, side_b), fx_mul_spec(side_c, side_c)),
        12));
    let e1 = sat_i64(tz_div(sat_add(fx_mul_spec(side_a, side_a), fx_mul_spec(side_c, side_c)),
        12));
    let e2 = sat_i64(tz_div(sat_add(fx_mul_spec(side_a, side_a), fx_mul_spec(side_b, side_b)),
        12));
    Mat3 {
        c0: Vec3 { x: e0 as i64, y: 0i64, z: 0i64 },
        c1: Vec3 { x: 0i64, y: e1 as i64, z: 0i64 },
        c2: Vec3 { x: 0i64, y: 0i64, z: e2 as i64 },
    }
}

/// The moment of inertia in the world frame: the principal tensor
/// conjugated by the current rotation, `R * I0 * R^-1`, or
/// `InvalidOrientation` when the stored inverse orientation cannot be
/// inverted back.
pub open spec fn current_moment_spec(cb: Cuboid) -> Result<Mat3, SceneError> {
    let r_inv = cb.components.inverse_orientation_matrix;
    match m_inverse(r_inv) {
        Option::None => Result::Err(SceneError::InvalidOrientation),
        Option::Some(r) => Result::Ok(
            m_mul(m_mul(r, cuboid_moment_spec(cb.side_a as int, cb.side_b as int,
                cb.side_c as int)), r_inv),
        ),
    }
}

/// The rotational energy carried by the angular momentum `l`:
/// `l . (I^-1 l)` for the current inertia tensor `I`.
pub open spec fn rotation_energy_spec(cb: Cuboid, l: Vec3) -> Result<int, SceneError> {
    match current_moment_spec(cb) {
        Result::Err(e) => Result::Err(e),
        Result::Ok(i) => match m_inverse(i) {
            Option::None => Result::Err(SceneError::InvalidOrientation),
            Option::Some(i_inv) => Result::Ok(v_dot(l, m_vec_mul(i_inv, l))),
        },
    }
}

/// What one integration step stores as the new inverse orientation: the
/// angular velocity `I^-1 l` is rescaled by the root of the ratio of its
/// current energy to the target (`DegenerateConfiguration` when the
/// target is not positive or the ratio degenerates), the rotation takes
/// an Euler step along the cross-product matrix of the velocity, and the
/// result is re-orthogonalized around the pivot column `idx` and
/// inverted.
pub open spec fn propagate_rotation_spec(cb: Cuboid, l: Vec3, energy: int, dt: int, idx: u8)
    -> Result<Mat3, SceneError>
    recommends
        idx <= 2,
{
    match current_moment_spec(cb) {
        Result::Err(e) => Result::Err(e),
        Result::Ok(i) => match m_inverse(cb.components.inverse_orientation_matrix) {
            Option::None => Result::Err(SceneError::InvalidOrientation),
            Option::Some(r) => match m_inverse(i) {
                Option::None => Result::Err(SceneError::InvalidOrientation),
                Option::Some(i_inv) => {
                    let omega = m_vec_mul(i_inv, l);
                    let current_energy = v_dot(omega, m_vec_mul(i, omega));
                    if energy <= 0 {
                        Result::Err(SceneError::DegenerateConfiguration)
                    } else {
                        let ratio = fx_div_spec(current_energy, energy);
                        if ratio < 0 {
                            Result::Err(SceneError::DegenerateConfiguration)
                        } else {
                            let factor = fx_sqrt_spec(ratio);
                            if factor == 0 {
                                Result::Err(SceneError::DegenerateConfiguration)
                            } else {
                                let omega_scaled = v_div(omega, factor);
                                let r_dot = m_mul(v_cross_matrix(omega_scaled), r);
                                let r_new = m_add(r, m_scale(dt, r_dot));
                                match gram_schmidt_spec(r_new, idx) {
                                    Result::Err(e) => Result::Err(e),
                                    Result::Ok(r_gs) => match m_inverse(r_gs) {
                                        Option::None => Result::Err(
                                            SceneError::InvalidOrientation,
                                        ),
                                        Option::Some(inv_new) => Result::Ok(inv_new),
                                    },
                                }
                            }
                        }
                    }
                },
            },
        },
    }
}

impl Cuboid {
    /// The principal moment of inertia of the cuboid (identity
    /// orientation, unit mass).
    pub fn get_moment_of_inertia(&self) -> (r: Mat3)
        ensures
            r == cuboid_moment_spec(self.side_a as int, self.side_b as int, self.side_c as int),
    {
        let e0 = tz_div_i64(
            fx_add(fx_mul(self.side_b, self.side_b), fx_mul(self.side_c, self.side_c)),
            12,
        );
        let e1 = tz_div_i64(
            fx_add(fx_mul(self.side_a, self.side_a), fx_mul(self.side_c, self.side_c)),
            12,
        );
        let e2 = tz_div_i64(
            fx_add(fx_mul(self.side_a, self.side_a), fx_mul(self.side_b, self.side_b)),
            12,
        );
        Mat3 {
            c0: Vec3 { x: e0, y: 0, z: 0 },
            c1: Vec3 { x: 0, y: e1, z: 0 },
            c2: Vec3 { x: 0, y: 0, z: e2 },
        }
    }

    /// The moment of inertia rotated into the world frame.
    pub fn get_current_moment_of_inertia(&self) -> (r: Result<Mat3, SceneError>)
        ensures
            r == current_moment_spec(*self),
    {
        let r_inv = self.components.inverse_orientation_matrix;
        let rm = match r_inv.try_inverse() {
            Option::Some(m) => m,
            Option::None => {
                return Result::Err(SceneError::InvalidOrientation);
            },
        };
        let i0 = self.get_moment_of_inertia();
        Result::Ok(rm.mul(&i0).mul(&r_inv))
    }

    /// The rotational energy carried by `angular_momentum` at the
    /// cuboid's current orientation.
    pub fn compute_energy_of_rotation(&self, angular_momentum: &Vec3) -> (r: Result<
        i64,
        SceneError,
    >)
        ensures
            r is Ok <==> rotation_energy_spec(*self, *angular_momentum) is Ok,
            r is Ok ==> r->Ok_0 as int == rotation_energy_spec(*self, *angular_momentum)->Ok_0,
            r is Err ==> r->Err_0 == rotation_energy_spec(*self, *angular_momentum)->Err_0,
    {
        let i = match self.get_current_moment_of_inertia() {
            Result::Ok(m) => m,
            Result::Err(e) => {
                return Result::Err(e);
            },
        };
        let i_inv = match i.try_inverse() {
            Option::Some(m) => m,
            Option::None => {
                return Result::Err(SceneError::InvalidOrientation);
            },
        };
        Result::Ok(angular_momentum.dot(i_inv.vec_mul(*angular_momentum)))
    }

    /// One integration step of free rotation: rescale the angular
    /// velocity to the target energy, take an Euler step, restore
    /// orthogonality around the pivot column `index_for_gso`, and store
    /// the new inverse orientation. On any failure the cuboid is left
    /// unchanged.
    pub fn propagate_rotation(
        &mut self,
        angular_momentum: &Vec3,
        energy: i64,
        dt: i64,
        index_for_gso: u8,
    ) -> (r: Result<(), SceneError>)
        requires
            index_for_gso <= 2,
        ensures
            ({
                let spec_r = propagate_rotation_spec(
                    *old(self),
                    *angular_momentum,
                    energy as int,
                    dt as int,
                    index_for_gso,
                );
                &&& (r is Ok <==> spec_r is Ok)
                &&& (r is Ok ==> final(self).components.inverse_orientation_matrix
                    == spec_r->Ok_0)
                &&& (r is Err ==> *final(self) == *old(self) && r->Err_0 == spec_r->Err_0)
                &&& final(self).components.objects == old(self).components.objects
                &&& final(self).components.center == old(self).components.center
                &&& final(self).components.smu_epsilon == old(self).components.smu_epsilon
                &&& final(self).side_a == old(self).side_a
                &&& final(self).side_b == old(self).side_b
                &&& final(self).side_c == old(self).side_c
                &&& (wf(Object::SoftIntersection(old(self).components)) ==> wf(
                    Object::SoftIntersection(final(self).components),
                ))
            }),
    {
        let i = match self.get_current_moment_of_inertia() {
            Result::Ok(m) => m,
            Result::Err(e) => {
                return Result::Err(e);
            },
        };
        let rm = match self.components.inverse_orientation_matrix.try_inverse() {
            Option::Some(m) => m,
            Option::None => {
                return Result::Err(SceneError::InvalidOrientation);
            },
        };
        let i_inv = match i.try_inverse() {
            Option::Some(m) => m,
            Option::None => {
                return Result::Err(SceneError::InvalidOrientation);
            },
        };
        let omega = i_inv.vec_mul(*angular_momentum);
        let current_energy = omega.dot(i.vec_mul(omega));
        if energy <= 0 {
            return Result::Err(SceneError::DegenerateConfiguration);
        }
        let ratio = fx_div(current_energy, energy);
        if ratio < 0 {
            return Result::Err(SceneError::DegenerateConfiguration);
        }
        let factor = fx_sqrt(ratio);
        if factor == 0 {
            return Result::Err(SceneError::DegenerateConfiguration);
        }
        let omega_scaled = omega.div_scalar(factor);
        let r_dot = omega_scaled.cross_matrix().mul(&rm);
        let r_new = rm.add(&r_dot.scale(dt));
        let r_gs = match gram_schmidt_orthogonalization(&r_new, index_for_gso) {
            Result::Ok(m) => m,
            Result::Err(e) => {
                return Result::Err(e);
            },
        };
        let inv_new = match r_gs.try_inverse() {
            Option::Some(m) => m,
            Option::None => {
                return Result::Err(SceneError::InvalidOrientation);
            },
        };
        self.components.inverse_orientation_matrix = inv_new;
        Result::Ok(())
    }
}

/// The same cuboid with its inverse orientation replaced.
pub open spec fn cuboid_with_inverse(cb: Cuboid, inv: Mat3) -> Cuboid {
    Cuboid {
        components: crate::objects::soft_intersection::SoftIntersection {
            inverse_orientation_matrix: inv,
            ..cb.components
        },
        ..cb
    }
}

/// Where `n` integration steps leave the inverse orientation, with the
/// Gram-Schmidt pivot cycling through the columns (`idx`, `idx + 1`, ...
/// modulo three): the state reached, and the error of the step that
/// failed, if one did (later steps are not taken).
pub open spec fn propagate_steps_spec(
    cb: Cuboid,
    l: Vec3,
    energy: int,
    dt: int,
    idx: u8,
    n: nat,
) -> (Mat3, Option<SceneError>)
    recommends
        idx <= 2,
    decreases n,
{
    if n == 0 {
        (cb.components.inverse_orientation_matrix, Option::None)
    } else {
        match propagate_rotation_spec(cb, l, energy, dt, idx) {
            Result::Err(e) => (cb.components.inverse_orientation_matrix, Option::Some(e)),
            Result::Ok(inv) => propagate_steps_spec(
                cuboid_with_inverse(cb, inv),
                l,
                energy,
                dt,
                ((idx + 1) % 3) as u8,
                (n - 1) as nat,
            ),
        }
    }
}

impl Cuboid {
    /// Run `steps` integration sub-steps in a row, cycling the
    /// Gram-Schmidt pivot column round-robin from `first_index` so the
    /// orthogonality correction's bias does not concentrate on one
    /// axis. Stops at the first failing step, leaving the state that
    /// step left behind.
    pub fn propagate_rotation_steps(
        &mut self,
        angular_momentum: &Vec3,
        energy: i64,
        dt: i64,
        first_index: u8,
        steps: u32,
    ) -> (r: Result<(), SceneError>)
        requires
            first_index <= 2,
        ensures
            ({
                let outcome = propagate_steps_spec(
                    *old(self),
                    *angular_momentum,
                    energy as int,
                    dt as int,
                    first_index,
                    steps as nat,
                );
                &&& final(self).components.inverse_orientation_matrix == outcome.0
                &&& (r is Ok <==> outcome.1 is None)
                &&& (r is Err ==> outcome.1 == Option::Some(r->Err_0))
            }),
            final(self).components.objects == old(self).components.objects,
            final(self).components.center == old(self).components.center,
            final(self).components.smu_epsilon == old(self).components.smu_epsilon,
            final(self).side_a == old(self).side_a,
            final(self).side_b == old(self).side_b,
            final(self).side_c == old(self).side_c,
            wf(Object::SoftIntersection(old(self).components)) ==> wf(
                Object::SoftIntersection(final(self).components),
            ),
    {
        let ghost start = *self;
        let mut index: u8 = first_index;
        let mut done: u32 = 0;
        while done < steps
            invariant
                index <= 2,
                done <= steps,
                propagate_steps_spec(
                    *self,
                    *angular_momentum,
                    energy as int,
                    dt as int,
                    index,
                    (steps - done) as nat,
                ) == propagate_steps_spec(
                    start,
                    *angular_momentum,
                    energy as int,
                    dt as int,
                    first_index,
                    steps as nat,
                ),
                self.components.objects == start.components.objects,
                self.components.center == start.components.center,
                self.components.smu_epsilon == start.components.smu_epsilon,
                self.side_a == start.side_a,
                self.side_b == start.side_b,
                self.side_c == start.side_c,
                start == *old(self),
                wf(Object::SoftIntersection(old(self).components)) ==> wf(
                    Object::SoftIntersection(self.components),
                ),
            decreases steps - done,
        {
            let ghost before = *self;
            match self.propagate_rotation(angular_momentum, energy, dt, index) {
                Result::Ok(()) => {
                    proof {
                        assert(*self == cuboid_with_inverse(
                            before,
                            self.components.inverse_orientation_matrix,
                        ));
                    }
                },
                Result::Err(e) => {
                    return Result::Err(e);
                },
            }
            index = (index + 1) % 3;
            done = done + 1;
        }
        Result::Ok(())
    }
}

/// The scene the renderer starts from: a cuboid with sides one, two and
/// three.
pub fn define_scene_cuboid() -> (r: Cuboid)
    ensures
        r.side_a == FX_ONE && r.side_b == 8589934592i64 && r.side_c == 12884901888i64,
        r.components.objects@ == cuboid_children(FX_ONE, 8589934592i64, 12884901888i64),
        r.components.center == (Vec3 { x: 0i64, y: 0i64, z: 0i64 }),
        r.components.inverse_orientation_matrix == m_identity(),
        r.components.smu_epsilon as int == cuboid_smoothing(FX_ONE, 8589934592i64,
            12884901888i64),
        wf(Object::SoftIntersection(r.components)),
{
    match Cuboid::new(FX_ONE, 8589934592, 12884901888) {
        Result::Ok(c) => c,
        Result::Err(_) => vstd::pervasive::unreached(),
    }
}

} // verus!
