//! The scene graph: a closed sum type over the geometry nodes.
//!
//! Every node carries a world-space center and an inverse-orientation
//! matrix mapping world directions into its local frame, and defines a
//! centered signed distance in local coordinates. The world-space signed
//! distance of any node is derived in one place
//! ([`Object::signed_distance_function`]): the centered distance evaluated
//! at `inverse_orientation * (point - center)`, so translating or rotating
//! a composite moves all its children together.

use vstd::prelude::*;

use crate::error::SceneError;
use crate::fixed::sat_neg;
use crate::math::{
    Vec3, Mat3, m_identity, m_inverse, m_vec_mul, v_add, v_sub, v_neg, v_dot,
    lemma_identity_vec_mul,
};
use crate::objects::sphere::{Sphere, sphere_sdf_centered};
use crate::objects::plane::{Plane, plane_sdf_centered};
use crate::objects::infinite_cylinder::{InfiniteCylinder, infinite_cylinder_sdf_centered};
use crate::objects::union::Union;
use crate::objects::intersection::Intersection;
use crate::objects::soft_union::SoftUnion;
use crate::objects::soft_intersection::SoftIntersection;
use crate::objects::utility_functions::{smu_spec, best_two_step};

pub mod sphere;
pub mod plane;
pub mod infinite_cylinder;
pub mod union;
pub mod intersection;
pub mod soft_union;
pub mod soft_intersection;
pub mod utility_functions;
pub mod cylinder;
pub mod cuboid;
pub mod pp;
pub mod dynamic_object_3d;

verus! {

/// A scene node: a leaf primitive or a composition operator owning a
/// list of child nodes.
#[derive(Debug)]
pub enum Object {
    Sphere(Sphere),
    Plane(Plane),
    InfiniteCylinder(InfiniteCylinder),
    Union(Union),
    Intersection(Intersection),
    SoftUnion(SoftUnion),
    SoftIntersection(SoftIntersection),
}

/// The world-space center of a node.
pub open spec fn obj_center(o: Object) -> Vec3 {
    match o {
        Object::Sphere(s) => s.center,
        Object::Plane(pl) => pl.r0,
        Object::InfiniteCylinder(c) => c.center,
        Object::Union(u) => u.center,
        Object::Intersection(it) => it.center,
        Object::SoftUnion(su) => su.center,
        Object::SoftIntersection(si) => si.center,
    }
}

/// The inverse-orientation matrix of a node.
pub open spec fn obj_inv(o: Object) -> Mat3 {
    match o {
        Object::Sphere(s) => s.inverse_orientation_matrix,
        Object::Plane(pl) => pl.inverse_orientation_matrix,
        Object::InfiniteCylinder(c) => c.inverse_orientation_matrix,
        Object::Union(u) => u.inverse_orientation_matrix,
        Object::Intersection(it) => it.inverse_orientation_matrix,
        Object::SoftUnion(su) => su.inverse_orientation_matrix,
        Object::SoftIntersection(si) => si.inverse_orientation_matrix,
    }
}

/// The same node with its center replaced.
pub open spec fn obj_with_center(o: Object, c: Vec3) -> Object {
    match o {
        Object::Sphere(s) => Object::Sphere(Sphere { center: c, ..s }),
        Object::Plane(pl) => Object::Plane(Plane { r0: c, ..pl }),
        Object::InfiniteCylinder(cy) => Object::InfiniteCylinder(
            InfiniteCylinder { center: c, ..cy },
        ),
        Object::Union(u) => Object::Union(Union { center: c, ..u }),
        Object::Intersection(it) => Object::Intersection(Intersection { center: c, ..it }),
        Object::SoftUnion(su) => Object::SoftUnion(SoftUnion { center: c, ..su }),
        Object::SoftIntersection(si) => Object::SoftIntersection(
            SoftIntersection { center: c, ..si },
        ),
    }
}

/// The same node with its inverse-orientation matrix replaced.
pub open spec fn obj_with_inverse(o: Object, m: Mat3) -> Object {
    match o {
        Object::Sphere(s) => Object::Sphere(Sphere { inverse_orientation_matrix: m, ..s }),
        Object::Plane(pl) => Object::Plane(Plane { inverse_orientation_matrix: m, ..pl }),
        Object::InfiniteCylinder(cy) => Object::InfiniteCylinder(
            InfiniteCylinder { inverse_orientation_matrix: m, ..cy },
        ),
        Object::Union(u) => Object::Union(Union { inverse_orientation_matrix: m, ..u }),
        Object::Intersection(it) => Object::Intersection(
            Intersection { inverse_orientation_matrix: m, ..it },
        ),
        Object::SoftUnion(su) => Object::SoftUnion(
            SoftUnion { inverse_orientation_matrix: m, ..su },
        ),
        Object::SoftIntersection(si) => Object::SoftIntersection(
            SoftIntersection { inverse_orientation_matrix: m, ..si },
        ),
    }
}

/// The node translated by `t`: only its own center moves; children are
/// carried along implicitly by the world-to-local transform.
pub open spec fn obj_translated(o: Object, t: Vec3) -> Object {
    obj_with_center(o, v_add(obj_center(o), t))
}

/// Whether the node sits at the origin with the identity orientation
/// (the placement every composition operator starts with).
pub open spec fn obj_default_placement(o: Object) -> bool {
    &&& obj_center(o) == (Vec3 { x: 0i64, y: 0i64, z: 0i64 })
    &&& obj_inv(o) == m_identity()
}

/// The world point `p` carried into the node's local frame:
/// `inverse_orientation * (p - center)`.
pub open spec fn local_point(o: Object, p: Vec3) -> Vec3 {
    m_vec_mul(obj_inv(o), v_sub(p, obj_center(o)))
}

/// Well-formedness of a node: positive radii and side lengths, a usable
/// cylinder axis, nonnegative smoothing, and at least one well-formed
/// child under every operator.
pub open spec fn wf(o: Object) -> bool
    decreases o,
{
    match o {
        Object::Sphere(s) => s.radius > 0,
        Object::Plane(pl) => pl.n != (Vec3 { x: 0i64, y: 0i64, z: 0i64 }),
        Object::InfiniteCylinder(c) => c.radius > 0 && v_dot(c.shaft_axis, c.shaft_axis) > 0,
        Object::Union(u) => u.objects.len() > 0 && (forall|i: int|
            0 <= i < u.objects.len() ==> wf(#[trigger] u.objects[i])),
        Object::Intersection(it) => it.objects.len() > 0 && (forall|i: int|
            0 <= i < it.objects.len() ==> wf(#[trigger] it.objects[i])),
        Object::SoftUnion(su) => su.smu_epsilon >= 0 && su.objects.len() > 0 && (forall|i: int|
            0 <= i < su.objects.len() ==> wf(#[trigger] su.objects[i])),
        Object::SoftIntersection(si) => si.smu_epsilon >= 0 && si.objects.len() > 0 && (
        forall|i: int| 0 <= i < si.objects.len() ==> wf(#[trigger] si.objects[i])),
    }
}

/// The world-space signed distance of the node at `p`: its centered
/// distance taken at the local image of `p`.
pub open spec fn sdf(o: Object, p: Vec3) -> int
    decreases o, 2int,
{
    sdf_centered(o, local_point(o, p))
}

/// The centered signed distance of the node at a local point `p`.
pub open spec fn sdf_centered(o: Object, p: Vec3) -> int
    decreases o, 1int,
{
    match o {
        Object::Sphere(s) => sphere_sdf_centered(s, p),
        Object::Plane(pl) => plane_sdf_centered(pl, p),
        Object::InfiniteCylinder(c) => infinite_cylinder_sdf_centered(c, p),
        Object::Union(u) => min_sdf_prefix(u.objects@, p, u.objects@.len() as int),
        Object::Intersection(it) => max_sdf_prefix(it.objects@, p, it.objects@.len() as int),
        Object::SoftUnion(su) => {
            let pair = best_two_spec(su.objects@, p, true);
            sat_neg(smu_spec(sat_neg(pair.0), sat_neg(pair.1), su.smu_epsilon as int))
        },
        Object::SoftIntersection(si) => {
            let pair = best_two_spec(si.objects@, p, false);
            smu_spec(pair.0, pair.1, si.smu_epsilon as int)
        },
    }
}

/// The least world-space distance among the first `n` nodes of `s`
/// (`i64::MAX` when `n` reaches outside the sequence).
pub open spec fn min_sdf_prefix(s: Seq<Object>, p: Vec3, n: int) -> int
    decreases s, n, 3int,
{
    if n <= 0 || s.len() < n {
        i64::MAX as int
    } else {
        vstd::math::min(min_sdf_prefix(s, p, n - 1), sdf(s[n - 1], p))
    }
}

/// The greatest world-space distance among the first `n` nodes of `s`
/// (`i64::MIN` when `n` reaches outside the sequence).
pub open spec fn max_sdf_prefix(s: Seq<Object>, p: Vec3, n: int) -> int
    decreases s, n, 3int,
{
    if n <= 0 || s.len() < n {
        i64::MIN as int
    } else {
        vstd::math::max(max_sdf_prefix(s, p, n - 1), sdf(s[n - 1], p))
    }
}

/// The running best and second-best distances after folding the first `n`
/// nodes of `s`, starting from the pair (`i64::MAX`, `i64::MAX`). Each
/// distance enters negated when `looking_for_min` is false, so the fold
/// always keeps the two smallest values seen; earlier nodes win ties.
pub open spec fn best_two_prefix(s: Seq<Object>, p: Vec3, looking_for_min: bool, n: int) -> (
    int,
    int,
)
    decreases s, n, 3int,
{
    if n <= 0 || s.len() < n {
        (i64::MAX as int, i64::MAX as int)
    } else {
        let prev = best_two_prefix(s, p, looking_for_min, n - 1);
        let d = sdf(s[n - 1], p);
        let cur = if looking_for_min {
            d
        } else {
            sat_neg(d)
        };
        best_two_step(prev.0, prev.1, cur)
    }
}

/// The two smallest (when `looking_for_min`) or two largest world-space
/// distances from `p` to the nodes of `s`, best first.
pub open spec fn best_two_spec(s: Seq<Object>, p: Vec3, looking_for_min: bool) -> (int, int)
    decreases s, s.len() as int + 1, 3int,
{
    let pair = best_two_prefix(s, p, looking_for_min, s.len() as int);
    if looking_for_min {
        pair
    } else {
        (sat_neg(pair.0), sat_neg(pair.1))
    }
}

/// With the default placement (origin center, identity orientation) the
/// local image of a point is the point itself.
pub proof fn lemma_default_placement_local(o: Object, p: Vec3)
    requires
        obj_default_placement(o),
    ensures
        local_point(o, p) == p,
        sdf(o, p) == sdf_centered(o, p),
{
    assert(v_sub(p, Vec3 { x: 0i64, y: 0i64, z: 0i64 }) == p);
    lemma_identity_vec_mul(p);
}

/// Every signed distance lies in the `i64` range.
pub proof fn lemma_sdf_bounds(o: Object, p: Vec3)
    ensures
        i64::MIN <= sdf(o, p) <= i64::MAX,
    decreases o, 2int,
{
    lemma_sdf_centered_bounds(o, local_point(o, p));
}

/// Every centered signed distance lies in the `i64` range.
pub proof fn lemma_sdf_centered_bounds(o: Object, p: Vec3)
    ensures
        i64::MIN <= sdf_centered(o, p) <= i64::MAX,
    decreases o, 1int,
{
    match o {
        Object::Sphere(s) => {},
        Object::Plane(pl) => {},
        Object::InfiniteCylinder(c) => {},
        Object::Union(u) => {
            lemma_min_sdf_prefix_bounds(u.objects@, p, u.objects@.len() as int);
        },
        Object::Intersection(it) => {
            lemma_max_sdf_prefix_bounds(it.objects@, p, it.objects@.len() as int);
        },
        Object::SoftUnion(su) => {},
        Object::SoftIntersection(si) => {},
    }
}

/// The folded minimum of a prefix lies in the `i64` range.
pub proof fn lemma_min_sdf_prefix_bounds(s: Seq<Object>, p: Vec3, n: int)
    ensures
        i64::MIN <= min_sdf_prefix(s, p, n) <= i64::MAX,
    decreases s, n, 3int,
{
    if n > 0 && n <= s.len() {
        lemma_min_sdf_prefix_bounds(s, p, n - 1);
        lemma_sdf_bounds(s[n - 1], p);
    }
}

/// The folded maximum of a prefix lies in the `i64` range.
pub proof fn lemma_max_sdf_prefix_bounds(s: Seq<Object>, p: Vec3, n: int)
    ensures
        i64::MIN <= max_sdf_prefix(s, p, n) <= i64::MAX,
    decreases s, n, 3int,
{
    if n > 0 && n <= s.len() {
        lemma_max_sdf_prefix_bounds(s, p, n - 1);
        lemma_sdf_bounds(s[n - 1], p);
    }
}

impl Object {
    /// The world-space center of the node.
    pub fn get_center(&self) -> (r: Vec3)
        ensures
            r == obj_center(*self),
    {
        match self {
            Object::Sphere(s) => s.center,
            Object::Plane(pl) => pl.r0,
            Object::InfiniteCylinder(c) => c.center,
            Object::Union(u) => u.center,
            Object::Intersection(it) => it.center,
            Object::SoftUnion(su) => su.center,
            Object::SoftIntersection(si) => si.center,
        }
    }

    /// The inverse-orientation matrix of the node.
    pub fn get_inverse_orientation_matrix(&self) -> (r: Mat3)
        ensures
            r == obj_inv(*self),
    {
        match self {
            Object::Sphere(s) => s.inverse_orientation_matrix,
            Object::Plane(pl) => pl.inverse_orientation_matrix,
            Object::InfiniteCylinder(c) => c.inverse_orientation_matrix,
            Object::Union(u) => u.inverse_orientation_matrix,
            Object::Intersection(it) => it.inverse_orientation_matrix,
            Object::SoftUnion(su) => su.inverse_orientation_matrix,
            Object::SoftIntersection(si) => si.inverse_orientation_matrix,
        }
    }

    /// The world-space signed distance of the node at `position`.
    pub fn signed_distance_function(&self, position: &Vec3) -> (r: i64)
        requires
            wf(*self),
        ensures
            r as int == sdf(*self, *position),
        decreases *self, 2int,
    {
        let center = self.get_center();
        let inv = self.get_inverse_orientation_matrix();
        let local = inv.vec_mul(position.sub(center));
        self.signed_distance_function_centered(&local)
    }

    /// The centered signed distance of the node at a local `position`.
    pub fn signed_distance_function_centered(&self, position: &Vec3) -> (r: i64)
        requires
            wf(*self),
        ensures
            r as int == sdf_centered(*self, *position),
        decreases *self, 1int,
    {
        match self {
            Object::Sphere(s) => s.signed_distance_function_centered(position),
            Object::Plane(pl) => pl.signed_distance_function_centered(position),
            Object::InfiniteCylinder(c) => c.signed_distance_function_centered(position),
            Object::Union(u) => u.signed_distance_function_centered(position),
            Object::Intersection(it) => it.signed_distance_function_centered(position),
            Object::SoftUnion(su) => su.signed_distance_function_centered(position),
            Object::SoftIntersection(si) => si.signed_distance_function_centered(position),
        }
    }

    /// Translate the node: add `translation_vector` to its center. The
    /// well-formedness of the node is untouched.
    pub fn move_object(&mut self, translation_vector: &Vec3)
        ensures
            *final(self) == obj_translated(*old(self), *translation_vector),
            wf(*old(self)) ==> wf(*final(self)),
    {
        match self {
            Object::Sphere(s) => {
                s.center = s.center.add(*translation_vector);
            },
            Object::Plane(pl) => {
                pl.r0 = pl.r0.add(*translation_vector);
            },
            Object::InfiniteCylinder(c) => {
                c.center = c.center.add(*translation_vector);
            },
            Object::Union(u) => {
                u.center = u.center.add(*translation_vector);
            },
            Object::Intersection(it) => {
                it.center = it.center.add(*translation_vector);
            },
            Object::SoftUnion(su) => {
                su.center = su.center.add(*translation_vector);
            },
            Object::SoftIntersection(si) => {
                si.center = si.center.add(*translation_vector);
            },
        }
    }

    /// Store the inverse of `transformation` as the node's new
    /// inverse-orientation. Fails with `InvalidOrientation` exactly when
    /// the matrix has a zero fixed-point determinant, leaving the node
    /// unchanged.
    pub fn set_orientation_matrix(&mut self, transformation: &Mat3) -> (r: Result<
        (),
        SceneError,
    >)
        ensures
            r is Ok <==> m_inverse(*transformation) is Some,
            r is Ok ==> *final(self) == obj_with_inverse(
                *old(self),
                m_inverse(*transformation)->Some_0,
            ),
            r is Err ==> *final(self) == *old(self) && r->Err_0 == SceneError::InvalidOrientation,
            wf(*old(self)) ==> wf(*final(self)),
    {
        let inv = match transformation.try_inverse() {
            Option::Some(m) => m,
            Option::None => {
                return Result::Err(SceneError::InvalidOrientation);
            },
        };
        match self {
            Object::Sphere(s) => {
                s.inverse_orientation_matrix = inv;
            },
            Object::Plane(pl) => {
                pl.inverse_orientation_matrix = inv;
            },
            Object::InfiniteCylinder(c) => {
                c.inverse_orientation_matrix = inv;
            },
            Object::Union(u) => {
                u.inverse_orientation_matrix = inv;
            },
            Object::Intersection(it) => {
                it.inverse_orientation_matrix = inv;
            },
            Object::SoftUnion(su) => {
                su.inverse_orientation_matrix = inv;
            },
            Object::SoftIntersection(si) => {
                si.inverse_orientation_matrix = inv;
            },
        }
        Result::Ok(())
    }
}

/// The centered distance of a node does not depend on where the node
/// sits: moving its center leaves the distance at every local point
/// unchanged.
pub proof fn lemma_sdf_centered_ignores_center(o: Object, c: Vec3, q: Vec3)
    ensures
        sdf_centered(obj_with_center(o, c), q) == sdf_centered(o, q),
{
    match o {
        Object::Sphere(s) => {},
        Object::Plane(pl) => {},
        Object::InfiniteCylinder(cy) => {},
        Object::Union(u) => {},
        Object::Intersection(it) => {},
        Object::SoftUnion(su) => {},
        Object::SoftIntersection(si) => {},
    }
}

/// Translating a node translates its whole distance field with it: at
/// the equally translated point the distance is unchanged, so moving a
/// composite carries every child along through the world-to-local
/// transform. The translated center and point must stay in range, so
/// that neither addition saturates.
pub proof fn lemma_translation_moves_distance_field(o: Object, t: Vec3, p: Vec3)
    requires
        i64::MIN <= p.x + t.x <= i64::MAX,
        i64::MIN <= p.y + t.y <= i64::MAX,
        i64::MIN <= p.z + t.z <= i64::MAX,
        i64::MIN <= obj_center(o).x + t.x <= i64::MAX,
        i64::MIN <= obj_center(o).y + t.y <= i64::MAX,
        i64::MIN <= obj_center(o).z + t.z <= i64::MAX,
    ensures
        sdf(obj_translated(o, t), v_add(p, t)) == sdf(o, p),
{
    let moved = obj_translated(o, t);
    assert(v_sub(v_add(p, t), v_add(obj_center(o), t)) == v_sub(p, obj_center(o)));
    assert(obj_inv(moved) == obj_inv(o));
    assert(local_point(moved, v_add(p, t)) == local_point(o, p));
    lemma_sdf_centered_ignores_center(o, v_add(obj_center(o), t), local_point(o, p));
}

/// Translating a node by `v` and then by `-v` restores it exactly,
/// provided the translated center stays in range (so that neither step
/// saturates) and `v` itself can be negated exactly.
pub proof fn lemma_translate_round_trip(o: Object, v: Vec3)
    requires
        i64::MIN <= obj_center(o).x + v.x <= i64::MAX,
        i64::MIN <= obj_center(o).y + v.y <= i64::MAX,
        i64::MIN <= obj_center(o).z + v.z <= i64::MAX,
        v.x > i64::MIN,
        v.y > i64::MIN,
        v.z > i64::MIN,
    ensures
        obj_translated(obj_translated(o, v), v_neg(v)) == o,
{
    let c = obj_center(o);
    assert(v_add(v_add(c, v), v_neg(v)) == c);
    assert(obj_with_center(obj_with_center(o, v_add(c, v)), c) == o);
}

} // verus!
