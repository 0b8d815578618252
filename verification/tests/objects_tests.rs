use raymarcher::FX_ONE;
use raymarcher::error::SceneError;
use raymarcher::math::{unit_z, Mat3, Vec3};
use raymarcher::objects::cuboid::Cuboid;
use raymarcher::objects::cylinder::Cylinder;
use raymarcher::objects::infinite_cylinder::InfiniteCylinder;
use raymarcher::objects::intersection::Intersection;
use raymarcher::objects::plane::Plane;
use raymarcher::objects::pp::PP;
use raymarcher::objects::soft_intersection::SoftIntersection;
use raymarcher::objects::soft_union::SoftUnion;
use raymarcher::objects::sphere::Sphere;
use raymarcher::objects::union::Union;
use raymarcher::objects::utility_functions::{best_two_distances, smooth_maximum_unit};
use raymarcher::objects::Object;

fn fx(v: f64) -> i64 {
    (v * FX_ONE as f64).round() as i64
}

fn to_f64(v: i64) -> f64 {
    v as f64 / FX_ONE as f64
}

fn sphere_at_origin(radius: f64) -> Object {
    Object::Sphere(Sphere::new(Vec3::zero(), fx(radius)).unwrap())
}

#[test]
fn sphere_distance_is_norm_minus_radius() {
    // For a sphere centered at the origin the distance at p is |p| - r.
    let s = sphere_at_origin(2.0);
    let samples = [
        (0.0, 0.0, 0.0, -2.0),
        (3.0, 0.0, 0.0, 1.0),
        (0.0, -10.0, 0.0, 8.0),
        (3.0, 4.0, 0.0, 3.0),
        (0.0, 0.0, 0.5, -1.5),
    ];
    for (x, y, z, want) in samples.iter() {
        let p = Vec3::new(fx(*x), fx(*y), fx(*z));
        let d = s.signed_distance_function(&p);
        assert!((to_f64(d) - want).abs() < 1e-4);
    }
    // Exactly zero on the surface.
    let on_surface = Vec3::new(fx(2.0), 0, 0);
    assert_eq!(s.signed_distance_function(&on_surface), 0);
}

#[test]
fn sphere_rejects_nonpositive_radius() {
    assert_eq!(
        Sphere::new(Vec3::zero(), 0).unwrap_err(),
        SceneError::DegenerateGeometry
    );
    assert_eq!(
        Sphere::new(Vec3::zero(), fx(-1.0)).unwrap_err(),
        SceneError::DegenerateGeometry
    );
}

#[test]
fn plane_distance_is_dot_with_normal() {
    let pl = Plane::new(Vec3::zero(), unit_z()).unwrap();
    let o = Object::Plane(pl);
    assert_eq!(o.signed_distance_function(&Vec3::new(fx(7.0), fx(-3.0), fx(1.5))), fx(1.5));
    assert_eq!(o.signed_distance_function(&Vec3::new(0, 0, fx(-2.0))), fx(-2.0));
    assert_eq!(
        Plane::new(Vec3::zero(), Vec3::zero()).unwrap_err(),
        SceneError::DegenerateGeometry
    );
}

#[test]
fn infinite_cylinder_distance_is_radial() {
    let c = InfiniteCylinder::new(Vec3::zero(), fx(1.0), unit_z()).unwrap();
    let o = Object::InfiniteCylinder(c);
    // Distance ignores the axial coordinate.
    let d1 = o.signed_distance_function(&Vec3::new(fx(3.0), 0, fx(100.0)));
    assert!((to_f64(d1) - 2.0).abs() < 1e-4);
    let d2 = o.signed_distance_function(&Vec3::new(0, 0, fx(-50.0)));
    assert!((to_f64(d2) + 1.0).abs() < 1e-4);
    assert_eq!(
        InfiniteCylinder::new(Vec3::zero(), fx(1.0), Vec3::zero()).unwrap_err(),
        SceneError::DegenerateGeometry
    );
}

#[test]
fn union_distance_is_min_of_children() {
    let a = sphere_at_origin(1.0);
    let b = Object::Sphere(Sphere::new(Vec3::new(fx(4.0), 0, 0), fx(1.0)).unwrap());
    let da_ref = a.signed_distance_function(&Vec3::new(fx(1.5), 0, 0));
    let db_ref = b.signed_distance_function(&Vec3::new(fx(1.5), 0, 0));
    let u = Object::Union(Union::from_objects(vec![a, b]).unwrap());
    let p = Vec3::new(fx(1.5), 0, 0);
    let du = u.signed_distance_function(&p);
    assert_eq!(du, da_ref.min(db_ref));
    assert_eq!(du, fx(0.5));
    assert_eq!(
        Union::from_objects(vec![]).unwrap_err(),
        SceneError::DegenerateGeometry
    );
}

#[test]
fn intersection_distance_is_max_of_children() {
    let a = sphere_at_origin(2.0);
    let b = Object::Plane(Plane::new(Vec3::zero(), unit_z()).unwrap());
    let p = Vec3::new(0, 0, fx(1.0));
    let da = a.signed_distance_function(&p);
    let db = b.signed_distance_function(&p);
    let it = Object::Intersection(Intersection::from_objects(vec![a, b]).unwrap());
    let di = it.signed_distance_function(&p);
    assert_eq!(di, da.max(db));
    assert_eq!(di, fx(1.0));
    assert_eq!(
        Intersection::from_objects(vec![]).unwrap_err(),
        SceneError::DegenerateGeometry
    );
}

#[test]
fn soft_union_approaches_union_as_epsilon_shrinks() {
    // Two unit spheres, both one unit away from the probe point: the
    // hard union gives 1, the soft union dips below by a sqrt(epsilon)
    // band that shrinks with epsilon.
    let p = Vec3::zero();
    let mut last_gap = f64::MAX;
    for eps in [0.05, 0.005, 0.0005, 0.00005] {
        let a = Object::Sphere(Sphere::new(Vec3::new(fx(2.0), 0, 0), fx(1.0)).unwrap());
        let b = Object::Sphere(Sphere::new(Vec3::new(fx(-2.0), 0, 0), fx(1.0)).unwrap());
        let su = Object::SoftUnion(SoftUnion::from_objects(vec![a, b], fx(eps)).unwrap());
        let soft = to_f64(su.signed_distance_function(&p));
        let gap = (soft - 1.0).abs();
        assert!(gap <= eps.sqrt() / 2.0 + 1e-4);
        assert!(gap < last_gap + 1e-9);
        last_gap = gap;
    }
    assert!(last_gap < 0.004);
    assert_eq!(
        SoftUnion::from_objects(vec![sphere_at_origin(1.0)], fx(-0.5)).unwrap_err(),
        SceneError::DegenerateGeometry
    );
}

#[test]
fn smooth_maximum_unit_matches_formula() {
    // smu(1, 2, 0.04) = (3 + sqrt(1.04)) / 2.
    let got = to_f64(smooth_maximum_unit(fx(1.0), fx(2.0), fx(0.04)));
    let want = (3.0 + 1.04f64.sqrt()) / 2.0;
    assert!((got - want).abs() < 1e-6);
    // With zero smoothing it is the exact maximum up to rounding.
    let hard = to_f64(smooth_maximum_unit(fx(-1.5), fx(0.25), 0));
    assert!((hard - 0.25).abs() < 1e-4);
}

#[test]
fn best_two_distances_orders_children() {
    let p = Vec3::zero();
    let objects = vec![
        Object::Sphere(Sphere::new(Vec3::new(fx(5.0), 0, 0), fx(1.0)).unwrap()),
        Object::Sphere(Sphere::new(Vec3::new(fx(2.0), 0, 0), fx(1.0)).unwrap()),
        Object::Sphere(Sphere::new(Vec3::new(fx(9.0), 0, 0), fx(1.0)).unwrap()),
    ];
    let (best, second) = best_two_distances(&objects, &p, true);
    assert_eq!(best, fx(1.0));
    assert_eq!(second, fx(4.0));
    let (largest, second_largest) = best_two_distances(&objects, &p, false);
    assert_eq!(largest, fx(8.0));
    assert_eq!(second_largest, fx(4.0));
}

#[test]
fn translation_round_trip_restores_center() {
    // Translating by v and then by -v restores the center exactly.
    let mut o = sphere_at_origin(1.0);
    let v = Vec3::new(fx(1.25), fx(-7.5), fx(3.125));
    o.move_object(&v);
    assert_eq!(o.get_center(), v);
    o.move_object(&v.neg());
    assert_eq!(o.get_center(), Vec3::zero());

    let mut compound = Cuboid::new(fx(1.0), fx(2.0), fx(3.0)).unwrap();
    compound.move_object(&v);
    compound.move_object(&v.neg());
    assert_eq!(compound.get_center(), Vec3::zero());
}

#[test]
fn translation_moves_the_distance_field() {
    // The distance at an equally translated point is unchanged.
    let mut o = Object::Sphere(Sphere::new(Vec3::new(fx(1.0), fx(2.0), fx(3.0)), fx(2.0)).unwrap());
    let p = Vec3::new(fx(4.0), fx(-1.0), fx(0.5));
    let before = o.signed_distance_function(&p);
    let t = Vec3::new(fx(-2.5), fx(10.0), fx(0.125));
    o.move_object(&t);
    let after = o.signed_distance_function(&p.add(t));
    assert_eq!(before, after);
}

#[test]
fn set_orientation_rejects_singular_matrix() {
    let mut o = sphere_at_origin(1.0);
    let singular = Mat3::identity().scale(0);
    assert_eq!(
        o.set_orientation_matrix(&singular).unwrap_err(),
        SceneError::InvalidOrientation
    );
    // A rotation is accepted and stored inverted.
    let rot = raymarcher::math::matrix_from_columns([
        Vec3::new(0, FX_ONE, 0),
        Vec3::new(-FX_ONE, 0, 0),
        Vec3::new(0, 0, FX_ONE),
    ]);
    o.set_orientation_matrix(&rot).unwrap();
    assert!(o.get_inverse_orientation_matrix() == rot.transpose());
}

#[test]
fn cylinder_is_bounded_by_its_planes() {
    let c = Cylinder::new(Vec3::zero(), fx(2.0), fx(1.0), unit_z()).unwrap();
    let o = c.into_object();
    // Inside the shaft, halfway up.
    assert!(o.signed_distance_function(&Vec3::new(0, 0, fx(1.0))) < 0);
    // Above the top cap the cap plane dominates.
    let above = o.signed_distance_function(&Vec3::new(0, 0, fx(3.0)));
    assert!((to_f64(above) - 1.0).abs() < 1e-4);
    // Outside radially.
    let beside = o.signed_distance_function(&Vec3::new(fx(4.0), 0, fx(1.0)));
    assert!((to_f64(beside) - 3.0).abs() < 1e-4);
    assert_eq!(
        Cylinder::new(Vec3::zero(), 0, fx(1.0), unit_z()).unwrap_err(),
        SceneError::DegenerateGeometry
    );
}

#[test]
fn cuboid_surface_and_smoothing() {
    let c = Cuboid::new(fx(1.0), fx(2.0), fx(3.0)).unwrap();
    assert_eq!(c.components.smu_epsilon, fx(3.0) / 100);
    let o = c.into_object();
    // Deep inside the box.
    assert!(o.signed_distance_function(&Vec3::zero()) < 0);
    // Far outside along the first axis only the near face pair matters.
    let outside = o.signed_distance_function(&Vec3::new(fx(10.0), 0, 0));
    assert!((to_f64(outside) - 9.5).abs() < 0.1);
    assert_eq!(
        Cuboid::new(fx(1.0), 0, fx(3.0)).unwrap_err(),
        SceneError::DegenerateGeometry
    );
}

#[test]
fn soft_intersection_blends_two_largest() {
    let a = sphere_at_origin(2.0);
    let b = Object::Plane(Plane::new(Vec3::zero(), unit_z()).unwrap());
    let p = Vec3::new(0, 0, fx(1.0));
    let da = to_f64(a.signed_distance_function(&p));
    let db = to_f64(b.signed_distance_function(&p));
    let si =
        Object::SoftIntersection(SoftIntersection::from_objects(vec![a, b], fx(0.01)).unwrap());
    let got = to_f64(si.signed_distance_function(&p));
    let want = (da + db + ((da - db) * (da - db) + 0.01).sqrt()) / 2.0;
    assert!((got - want).abs() < 1e-4);
}

#[test]
fn pp_figure_assembles_and_evaluates() {
    let figure = PP::default();
    let o = figure.into_object();
    // Inside the left sphere.
    assert!(o.signed_distance_function(&Vec3::new(fx(-1.0), 0, 0)) < 0);
    // Far away on the first axis the nearest part is the right sphere.
    let far = o.signed_distance_function(&Vec3::new(fx(10.0), 0, 0));
    assert!((to_f64(far) - 7.0).abs() < 0.05);
}
