//! Three-component vectors and 3x3 matrices over fixed-point scalars,
//! with dot, cross, normalization, inversion and Gram-Schmidt
//! orthogonalization.
//!
//! A matrix is stored by columns: the columns are the images of the basis
//! vectors under the transform.

use vstd::prelude::*;
use vstd::array::*;

use crate::error::SceneError;
use crate::fixed::{
    FX_ONE, sat_add, sat_sub, sat_neg, fx_mul_spec, fx_div_spec, fx_sqrt_spec, sqrt_floor,
    lemma_sqrt_floor_is, fx_add, fx_sub, fx_neg, fx_mul, fx_div, fx_sqrt,
};

verus! {

/// A vector of three fixed-point components.
#[derive(Clone, Copy, Debug, PartialEq, Eq, Structural)]
pub struct Vec3 {
    pub x: i64,
    pub y: i64,
    pub z: i64,
}

/// Componentwise saturating vector sum.
pub open spec fn v_add(a: Vec3, b: Vec3) -> Vec3 {
    Vec3 {
        x: sat_add(a.x as int, b.x as int) as i64,
        y: sat_add(a.y as int, b.y as int) as i64,
        z: sat_add(a.z as int, b.z as int) as i64,
    }
}

/// Componentwise saturating vector difference.
pub open spec fn v_sub(a: Vec3, b: Vec3) -> Vec3 {
    Vec3 {
        x: sat_sub(a.x as int, b.x as int) as i64,
        y: sat_sub(a.y as int, b.y as int) as i64,
        z: sat_sub(a.z as int, b.z as int) as i64,
    }
}

/// Componentwise saturating negation.
pub open spec fn v_neg(a: Vec3) -> Vec3 {
    Vec3 {
        x: sat_neg(a.x as int) as i64,
        y: sat_neg(a.y as int) as i64,
        z: sat_neg(a.z as int) as i64,
    }
}

/// The vector scaled by the fixed-point factor `k`.
pub open spec fn v_scale(k: int, a: Vec3) -> Vec3 {
    Vec3 {
        x: fx_mul_spec(k, a.x as int) as i64,
        y: fx_mul_spec(k, a.y as int) as i64,
        z: fx_mul_spec(k, a.z as int) as i64,
    }
}

/// Fixed-point dot product.
pub open spec fn v_dot(a: Vec3, b: Vec3) -> int {
    sat_add(
        sat_add(fx_mul_spec(a.x as int, b.x as int), fx_mul_spec(a.y as int, b.y as int)),
        fx_mul_spec(a.z as int, b.z as int),
    )
}

/// Fixed-point cross product.
pub open spec fn v_cross(a: Vec3, b: Vec3) -> Vec3 {
    Vec3 {
        x: sat_sub(fx_mul_spec(a.y as int, b.z as int), fx_mul_spec(a.z as int, b.y as int))
            as i64,
        y: sat_sub(fx_mul_spec(a.z as int, b.x as int), fx_mul_spec(a.x as int, b.z as int))
            as i64,
        z: sat_sub(fx_mul_spec(a.x as int, b.y as int), fx_mul_spec(a.y as int, b.x as int))
            as i64,
    }
}

/// The Euclidean norm: the fixed-point square root of the dot product of
/// the vector with itself.
pub open spec fn v_norm(a: Vec3) -> int {
    fx_sqrt_spec(v_dot(a, a))
}

/// The vector divided componentwise by its norm.
pub open spec fn v_normalise(a: Vec3) -> Vec3
    recommends
        v_norm(a) != 0,
{
    Vec3 {
        x: fx_div_spec(a.x as int, v_norm(a)) as i64,
        y: fx_div_spec(a.y as int, v_norm(a)) as i64,
        z: fx_div_spec(a.z as int, v_norm(a)) as i64,
    }
}

/// A dot product of a vector with itself is never negative.
pub proof fn lemma_v_dot_self_nonneg(a: Vec3)
    ensures
        v_dot(a, a) >= 0,
{
    assert((a.x as int) * (a.x as int) >= 0) by (nonlinear_arith);
    assert((a.y as int) * (a.y as int) >= 0) by (nonlinear_arith);
    assert((a.z as int) * (a.z as int) >= 0) by (nonlinear_arith);
}

impl Vec3 {
    /// Build a vector from three fixed-point components.
    pub fn new(x: i64, y: i64, z: i64) -> (r: Vec3)
        ensures
            r == (Vec3 { x, y, z }),
    {
        Vec3 { x, y, z }
    }

    /// The zero vector.
    pub fn zero() -> (r: Vec3)
        ensures
            r == (Vec3 { x: 0i64, y: 0i64, z: 0i64 }),
    {
        Vec3 { x: 0, y: 0, z: 0 }
    }

    /// Componentwise saturating sum.
    pub fn add(self, other: Vec3) -> (r: Vec3)
        ensures
            r == v_add(self, other),
    {
        Vec3 { x: fx_add(self.x, other.x), y: fx_add(self.y, other.y), z: fx_add(
            self.z,
            other.z,
        ) }
    }

    /// Componentwise saturating difference.
    pub fn sub(self, other: Vec3) -> (r: Vec3)
        ensures
            r == v_sub(self, other),
    {
        Vec3 { x: fx_sub(self.x, other.x), y: fx_sub(self.y, other.y), z: fx_sub(
            self.z,
            other.z,
        ) }
    }

    /// Componentwise saturating negation.
    pub fn neg(self) -> (r: Vec3)
        ensures
            r == v_neg(self),
    {
        Vec3 { x: fx_neg(self.x), y: fx_neg(self.y), z: fx_neg(self.z) }
    }

    /// The vector scaled by the fixed-point factor `k`.
    pub fn scale(self, k: i64) -> (r: Vec3)
        ensures
            r == v_scale(k as int, self),
    {
        Vec3 { x: fx_mul(k, self.x), y: fx_mul(k, self.y), z: fx_mul(k, self.z) }
    }

    /// Fixed-point dot product.
    pub fn dot(self, other: Vec3) -> (r: i64)
        ensures
            r as int == v_dot(self, other),
    {
        fx_add(fx_add(fx_mul(self.x, other.x), fx_mul(self.y, other.y)), fx_mul(self.z, other.z))
    }

    /// Fixed-point cross product.
    pub fn cross(self, other: Vec3) -> (r: Vec3)
        ensures
            r == v_cross(self, other),
    {
        Vec3 {
            x: fx_sub(fx_mul(self.y, other.z), fx_mul(self.z, other.y)),
            y: fx_sub(fx_mul(self.z, other.x), fx_mul(self.x, other.z)),
            z: fx_sub(fx_mul(self.x, other.y), fx_mul(self.y, other.x)),
        }
    }

    /// The Euclidean norm of the vector.
    pub fn norm(self) -> (r: i64)
        ensures
            r as int == v_norm(self),
            r >= 0,
    {
        proof {
            lemma_v_dot_self_nonneg(self);
        }
        fx_sqrt(self.dot(self))
    }
}

/// The capability of scaling a value down to unit norm.
pub trait Normalize: Sized {
    /// Whether the value can be normalised at all.
    spec fn can_normalise(&self) -> bool;

    /// The normalised value.
    spec fn normalise_spec(&self) -> Self;

    /// Scale the value down to unit norm.
    fn normalise(self) -> (r: Self)
        requires
            self.can_normalise(),
        ensures
            r == self.normalise_spec(),
    ;
}

impl Normalize for Vec3 {
    /// A vector of zero norm cannot be normalised.
    open spec fn can_normalise(&self) -> bool {
        v_norm(*self) != 0
    }

    open spec fn normalise_spec(&self) -> Vec3 {
        v_normalise(*self)
    }

    fn normalise(self) -> (r: Vec3) {
        let n = self.norm();
        Vec3 { x: fx_div(self.x, n), y: fx_div(self.y, n), z: fx_div(self.z, n) }
    }
}

/// The unit vector along the first world axis.
pub fn unit_x() -> (r: Vec3)
    ensures
        r == (Vec3 { x: FX_ONE, y: 0i64, z: 0i64 }),
{
    Vec3 { x: FX_ONE, y: 0, z: 0 }
}

/// The unit vector along the second world axis.
pub fn unit_y() -> (r: Vec3)
    ensures
        r == (Vec3 { x: 0i64, y: FX_ONE, z: 0i64 }),
{
    Vec3 { x: 0, y: FX_ONE, z: 0 }
}

/// The unit vector along the third world axis.
pub fn unit_z() -> (r: Vec3)
    ensures
        r == (Vec3 { x: 0i64, y: 0i64, z: FX_ONE }),
{
    Vec3 { x: 0, y: 0, z: FX_ONE }
}

/// Scaling a vector by the fixed-point one is exact.
pub proof fn lemma_v_scale_one_exact(k: i64, a: Vec3)
    requires
        a == (Vec3 { x: FX_ONE, y: 0i64, z: 0i64 }) || a == (Vec3 { x: 0i64, y: FX_ONE, z: 0i64 })
            || a == (Vec3 { x: 0i64, y: 0i64, z: FX_ONE }),
    ensures
        a.x == FX_ONE ==> v_scale(k as int, a) == (Vec3 { x: k, y: 0i64, z: 0i64 }),
        a.y == FX_ONE ==> v_scale(k as int, a) == (Vec3 { x: 0i64, y: k, z: 0i64 }),
        a.z == FX_ONE ==> v_scale(k as int, a) == (Vec3 { x: 0i64, y: 0i64, z: k }),
{
    crate::fixed::lemma_fx_mul_one(k as int);
    crate::fixed::lemma_fx_mul_zero(k as int);
}

/// The identity matrix maps every vector to itself, exactly.
pub proof fn lemma_identity_vec_mul(p: Vec3)
    ensures
        m_vec_mul(m_identity(), p) == p,
{
    let m = m_identity();
    lemma_v_scale_one_exact(p.x, m.c0);
    lemma_v_scale_one_exact(p.y, m.c1);
    lemma_v_scale_one_exact(p.z, m.c2);
    assert(m_vec_mul(m, p) == p);
}

/// A 3x3 matrix of fixed-point entries, stored by columns.
#[derive(Clone, Copy, Debug, PartialEq, Eq, Structural)]
pub struct Mat3 {
    pub c0: Vec3,
    pub c1: Vec3,
    pub c2: Vec3,
}

/// The identity matrix.
pub open spec fn m_identity() -> Mat3 {
    Mat3 {
        c0: Vec3 { x: FX_ONE, y: 0i64, z: 0i64 },
        c1: Vec3 { x: 0i64, y: FX_ONE, z: 0i64 },
        c2: Vec3 { x: 0i64, y: 0i64, z: FX_ONE },
    }
}

/// The `k`-th column of the matrix (`k` in `0..3`).
pub open spec fn m_col(m: Mat3, k: int) -> Vec3
    recommends
        0 <= k <= 2,
{
    if k == 0 {
        m.c0
    } else if k == 1 {
        m.c1
    } else {
        m.c2
    }
}

/// The matrix with its `k`-th column replaced by `v`.
pub open spec fn m_with_col(m: Mat3, k: int, v: Vec3) -> Mat3
    recommends
        0 <= k <= 2,
{
    if k == 0 {
        Mat3 { c0: v, ..m }
    } else if k == 1 {
        Mat3 { c1: v, ..m }
    } else {
        Mat3 { c2: v, ..m }
    }
}

/// The image of the vector `v` under the matrix: the columns weighted by
/// the components of `v`.
pub open spec fn m_vec_mul(m: Mat3, v: Vec3) -> Vec3 {
    v_add(v_add(v_scale(v.x as int, m.c0), v_scale(v.y as int, m.c1)), v_scale(v.z as int, m.c2))
}

/// The matrix product `a * b`, column by column.
pub open spec fn m_mul(a: Mat3, b: Mat3) -> Mat3 {
    Mat3 { c0: m_vec_mul(a, b.c0), c1: m_vec_mul(a, b.c1), c2: m_vec_mul(a, b.c2) }
}

/// The matrix scaled entrywise by the fixed-point factor `k`.
pub open spec fn m_scale(k: int, m: Mat3) -> Mat3 {
    Mat3 { c0: v_scale(k, m.c0), c1: v_scale(k, m.c1), c2: v_scale(k, m.c2) }
}

/// The transposed matrix.
pub open spec fn m_transpose(m: Mat3) -> Mat3 {
    Mat3 {
        c0: Vec3 { x: m.c0.x, y: m.c1.x, z: m.c2.x },
        c1: Vec3 { x: m.c0.y, y: m.c1.y, z: m.c2.y },
        c2: Vec3 { x: m.c0.z, y: m.c1.z, z: m.c2.z },
    }
}

/// The determinant: the first column dotted with the cross product of the
/// other two.
pub open spec fn m_det(m: Mat3) -> int {
    v_dot(m.c0, v_cross(m.c1, m.c2))
}

/// The inverse, by the adjugate formula, or `None` when the fixed-point
/// determinant is zero.
pub open spec fn m_inverse(m: Mat3) -> Option<Mat3> {
    let d = m_det(m);
    if d == 0 {
        Option::None
    } else {
        let r0 = v_cross(m.c1, m.c2);
        let r1 = v_cross(m.c2, m.c0);
        let r2 = v_cross(m.c0, m.c1);
        Option::Some(
            Mat3 {
                c0: Vec3 {
                    x: fx_div_spec(r0.x as int, d) as i64,
                    y: fx_div_spec(r1.x as int, d) as i64,
                    z: fx_div_spec(r2.x as int, d) as i64,
                },
                c1: Vec3 {
                    x: fx_div_spec(r0.y as int, d) as i64,
                    y: fx_div_spec(r1.y as int, d) as i64,
                    z: fx_div_spec(r2.y as int, d) as i64,
                },
                c2: Vec3 {
                    x: fx_div_spec(r0.z as int, d) as i64,
                    y: fx_div_spec(r1.z as int, d) as i64,
                    z: fx_div_spec(r2.z as int, d) as i64,
                },
            },
        )
    }
}

impl Mat3 {
    /// The identity matrix.
    pub fn identity() -> (r: Mat3)
        ensures
            r == m_identity(),
    {
        Mat3 {
            c0: Vec3 { x: FX_ONE, y: 0, z: 0 },
            c1: Vec3 { x: 0, y: FX_ONE, z: 0 },
            c2: Vec3 { x: 0, y: 0, z: FX_ONE },
        }
    }

    /// The `k`-th column.
    pub fn col(&self, k: u8) -> (r: Vec3)
        requires
            k <= 2,
        ensures
            r == m_col(*self, k as int),
    {
        if k == 0 {
            self.c0
        } else if k == 1 {
            self.c1
        } else {
            self.c2
        }
    }

    /// Replace the `k`-th column.
    pub fn with_col(self, k: u8, v: Vec3) -> (r: Mat3)
        requires
            k <= 2,
        ensures
            r == m_with_col(self, k as int, v),
    {
        if k == 0 {
            Mat3 { c0: v, ..self }
        } else if k == 1 {
            Mat3 { c1: v, ..self }
        } else {
            Mat3 { c2: v, ..self }
        }
    }

    /// The image of `v` under the matrix.
    pub fn vec_mul(&self, v: Vec3) -> (r: Vec3)
        ensures
            r == m_vec_mul(*self, v),
    {
        self.c0.scale(v.x).add(self.c1.scale(v.y)).add(self.c2.scale(v.z))
    }

    /// The matrix product `self * other`.
    pub fn mul(&self, other: &Mat3) -> (r: Mat3)
        ensures
            r == m_mul(*self, *other),
    {
        Mat3 { c0: self.vec_mul(other.c0), c1: self.vec_mul(other.c1), c2: self.vec_mul(
            other.c2,
        ) }
    }

    /// The matrix scaled entrywise by the fixed-point factor `k`.
    pub fn scale(&self, k: i64) -> (r: Mat3)
        ensures
            r == m_scale(k as int, *self),
    {
        Mat3 { c0: self.c0.scale(k), c1: self.c1.scale(k), c2: self.c2.scale(k) }
    }

    /// The transposed matrix.
    pub fn transpose(&self) -> (r: Mat3)
        ensures
            r == m_transpose(*self),
    {
        Mat3 {
            c0: Vec3 { x: self.c0.x, y: self.c1.x, z: self.c2.x },
            c1: Vec3 { x: self.c0.y, y: self.c1.y, z: self.c2.y },
            c2: Vec3 { x: self.c0.z, y: self.c1.z, z: self.c2.z },
        }
    }

    /// The determinant.
    pub fn det(&self) -> (r: i64)
        ensures
            r as int == m_det(*self),
    {
        self.c0.dot(self.c1.cross(self.c2))
    }

    /// The inverse by the adjugate formula, or `None` when the fixed-point
    /// determinant is zero.
    pub fn try_inverse(&self) -> (r: Option<Mat3>)
        ensures
            r == m_inverse(*self),
    {
        let d = self.det();
        if d == 0 {
            return Option::None;
        }
        let r0 = self.c1.cross(self.c2);
        let r1 = self.c2.cross(self.c0);
        let r2 = self.c0.cross(self.c1);
        Option::Some(
            Mat3 {
                c0: Vec3 { x: fx_div(r0.x, d), y: fx_div(r1.x, d), z: fx_div(r2.x, d) },
                c1: Vec3 { x: fx_div(r0.y, d), y: fx_div(r1.y, d), z: fx_div(r2.y, d) },
                c2: Vec3 { x: fx_div(r0.z, d), y: fx_div(r1.z, d), z: fx_div(r2.z, d) },
            },
        )
    }
}

/// A matrix whose columns are the three given vectors, in order.
pub fn matrix_from_columns(columns: [Vec3; 3]) -> (r: Mat3)
    ensures
        r == (Mat3 { c0: columns[0], c1: columns[1], c2: columns[2] }),
{
    Mat3 { c0: columns[0], c1: columns[1], c2: columns[2] }
}

/// The vector divided componentwise by the fixed-point scalar `k`.
pub open spec fn v_div(a: Vec3, k: int) -> Vec3
    recommends
        k != 0,
{
    Vec3 {
        x: fx_div_spec(a.x as int, k) as i64,
        y: fx_div_spec(a.y as int, k) as i64,
        z: fx_div_spec(a.z as int, k) as i64,
    }
}

/// The cross-product matrix of `v`: the matrix whose image of any `w` is
/// `v x w`.
pub open spec fn v_cross_matrix(v: Vec3) -> Mat3 {
    Mat3 {
        c0: Vec3 { x: 0i64, y: v.z, z: sat_neg(v.y as int) as i64 },
        c1: Vec3 { x: sat_neg(v.z as int) as i64, y: 0i64, z: v.x },
        c2: Vec3 { x: v.y, y: sat_neg(v.x as int) as i64, z: 0i64 },
    }
}

/// The entrywise saturating sum of two matrices.
pub open spec fn m_add(a: Mat3, b: Mat3) -> Mat3 {
    Mat3 { c0: v_add(a.c0, b.c0), c1: v_add(a.c1, b.c1), c2: v_add(a.c2, b.c2) }
}

impl Vec3 {
    /// The vector divided componentwise by the fixed-point scalar `k`.
    pub fn div_scalar(self, k: i64) -> (r: Vec3)
        requires
            k != 0,
        ensures
            r == v_div(self, k as int),
    {
        Vec3 { x: fx_div(self.x, k), y: fx_div(self.y, k), z: fx_div(self.z, k) }
    }

    /// The cross-product matrix of the vector.
    pub fn cross_matrix(self) -> (r: Mat3)
        ensures
            r == v_cross_matrix(self),
    {
        Mat3 {
            c0: Vec3 { x: 0, y: self.z, z: fx_neg(self.y) },
            c1: Vec3 { x: fx_neg(self.z), y: 0, z: self.x },
            c2: Vec3 { x: self.y, y: fx_neg(self.x), z: 0 },
        }
    }
}

impl Mat3 {
    /// The entrywise saturating sum of two matrices.
    pub fn add(&self, other: &Mat3) -> (r: Mat3)
        ensures
            r == m_add(*self, *other),
    {
        Mat3 { c0: self.c0.add(other.c0), c1: self.c1.add(other.c1), c2: self.c2.add(other.c2) }
    }
}

/// The projection of `v` onto the direction of `u`: `u` scaled by
/// `(u . v) / (u . u)`.
pub open spec fn v_proj(u: Vec3, v: Vec3) -> Vec3
    recommends
        v_dot(u, u) != 0,
{
    v_scale(fx_div_spec(v_dot(u, v), v_dot(u, u)), u)
}

fn proj(u: Vec3, v: Vec3) -> (r: Vec3)
    requires
        v_dot(u, u) != 0,
    ensures
        r == v_proj(u, v),
{
    u.scale(fx_div(u.dot(v), u.dot(u)))
}

/// What Gram-Schmidt orthogonalization yields on `input` when the column
/// at index `first_element` is taken as the pivot: each column, in cyclic
/// order starting from the pivot, has the projections onto the previously
/// processed columns subtracted, and all three are then normalised. The
/// result is `Err` exactly when a processed column degenerates to zero
/// before normalisation.
pub open spec fn gram_schmidt_spec(input: Mat3, first_element: u8) -> Result<Mat3, SceneError>
    recommends
        first_element <= 2,
{
    let k0 = first_element as int % 3;
    let k1 = (first_element as int + 1) % 3;
    let k2 = (first_element as int + 2) % 3;
    let u0 = m_col(input, k0);
    if v_dot(u0, u0) == 0 {
        Result::Err(SceneError::InvalidOrientation)
    } else {
        let u1 = v_sub(m_col(input, k1), v_proj(u0, m_col(input, k1)));
        if v_dot(u1, u1) == 0 {
            Result::Err(SceneError::InvalidOrientation)
        } else {
            let c2 = m_col(input, k2);
            let u2 = v_sub(v_sub(c2, v_proj(u0, c2)), v_proj(u1, c2));
            if v_dot(u2, u2) == 0 {
                Result::Err(SceneError::InvalidOrientation)
            } else {
                Result::Ok(
                    m_with_col(
                        m_with_col(
                            m_with_col(input, k0, v_normalise(u0)),
                            k1,
                            v_normalise(u1),
                        ),
                        k2,
                        v_normalise(u2),
                    ),
                )
            }
        }
    }
}

/// A vector whose self dot product is positive has a positive norm.
pub proof fn lemma_positive_dot_positive_norm(a: Vec3)
    requires
        v_dot(a, a) > 0,
    ensures
        v_norm(a) > 0,
{
    lemma_sqrt_floor_is(v_dot(a, a) * FX_ONE as int);
    assert(v_dot(a, a) * FX_ONE as int >= FX_ONE as int) by (nonlinear_arith)
        requires
            v_dot(a, a) >= 1,
            FX_ONE == 4294967296,
    ;
    let r = sqrt_floor(v_dot(a, a) * FX_ONE as int);
    assert(r > 0) by (nonlinear_arith)
        requires
            r >= 0,
            (r + 1) * (r + 1) > 4294967296,
    ;
}

/// Turn the input matrix into one with orthonormal columns, keeping the
/// direction of the column picked by `first_element` (an index in `0..3`).
/// Fails with `InvalidOrientation` when the columns are degenerate (some
/// processed column vanishes before normalisation).
pub fn gram_schmidt_orthogonalization(input: &Mat3, first_element: u8) -> (r: Result<
    Mat3,
    SceneError,
>)
    requires
        first_element <= 2,
    ensures
        r == gram_schmidt_spec(*input, first_element),
{
    let k0: u8 = first_element % 3;
    let k1: u8 = (first_element + 1) % 3;
    let k2: u8 = (first_element + 2) % 3;
    let u0 = input.col(k0);
    let d0 = u0.dot(u0);
    if d0 == 0 {
        return Result::Err(SceneError::InvalidOrientation);
    }
    let c1 = input.col(k1);
    let u1 = c1.sub(proj(u0, c1));
    let d1 = u1.dot(u1);
    if d1 == 0 {
        return Result::Err(SceneError::InvalidOrientation);
    }
    let c2 = input.col(k2);
    let u2 = c2.sub(proj(u0, c2)).sub(proj(u1, c2));
    let d2 = u2.dot(u2);
    if d2 == 0 {
        return Result::Err(SceneError::InvalidOrientation);
    }
    proof {
        lemma_v_dot_self_nonneg(u0);
        lemma_v_dot_self_nonneg(u1);
        lemma_v_dot_self_nonneg(u2);
        lemma_positive_dot_positive_norm(u0);
        lemma_positive_dot_positive_norm(u1);
        lemma_positive_dot_positive_norm(u2);
    }
    let w0 = u0.normalise();
    let w1 = u1.normalise();
    let w2 = u2.normalise();
    Result::Ok(input.with_col(k0, w0).with_col(k1, w1).with_col(k2, w2))
}

/// When Gram-Schmidt succeeds, the pivot column of the result is exactly
/// the normalised pivot column of the input: the pivot direction is kept.
pub proof fn lemma_gram_schmidt_keeps_pivot(input: Mat3, first_element: u8)
    requires
        first_element <= 2,
        gram_schmidt_spec(input, first_element) is Ok,
    ensures
        m_col(
            gram_schmidt_spec(input, first_element)->Ok_0,
            first_element as int,
        ) == v_normalise(m_col(input, first_element as int)),
{
}

} // verus!

