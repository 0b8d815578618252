use raymarcher::FX_ONE;
use raymarcher::error::SceneError;
use raymarcher::fixed::{fx_add, fx_div, fx_mul, fx_neg, fx_sqrt, fx_sub, tz_div_i64};
use raymarcher::math::{
    gram_schmidt_orthogonalization, matrix_from_columns, unit_x, unit_y, unit_z, Mat3, Normalize,
    Vec3,
};

fn fx(v: f64) -> i64 {
    (v * FX_ONE as f64).round() as i64
}

fn to_f64(v: i64) -> f64 {
    v as f64 / FX_ONE as f64
}

#[test]
fn add_arrays() {
    let a = Vec3::new(fx(1.0), fx(2.0), fx(3.0));
    let b = Vec3::new(fx(4.0), fx(2.0), fx(3.0));
    let x = a.add(b);

    let res = Vec3::new(fx(5.0), fx(4.0), fx(6.0));
    assert!(x == res);
    println!("{:?}, {:?}", a, b);
}

#[test]
fn test_vector_macro() {
    let a = Vec3::new(fx(1.0), fx(2.0), fx(3.0));
    assert!(a == Vec3 { x: FX_ONE, y: 2 * FX_ONE, z: 3 * FX_ONE });
}

#[test]
fn test_normalize_trait() {
    let expected = Vec3::new(fx(0.42426), fx(0.56568), fx(0.7071));
    let difference = Vec3::new(fx(3.0), fx(4.0), fx(5.0)).normalise().sub(expected);
    assert!(difference.dot(difference) < fx(0.001));
}

#[test]
fn test_matrix_from_col() {
    let two_x = unit_x().scale(fx(2.0));
    let two_y = unit_y().scale(fx(2.0));
    let two_z = unit_z().scale(fx(2.0));
    let a = matrix_from_columns([two_x, two_y, two_z]);
    assert!(a.mul(&a) == a.scale(fx(2.0)));
}

#[test]
fn test_gso() {
    let gso = gram_schmidt_orthogonalization(&Mat3::identity(), 0).unwrap();
    println!("{:?}", gso);
    assert!(gso == Mat3::identity());

    let gso = gram_schmidt_orthogonalization(&Mat3::identity().scale(fx(2.0)), 1).unwrap();
    println!("{:?}", gso);
    assert!(gso == Mat3::identity());

    let gso = gram_schmidt_orthogonalization(
        &matrix_from_columns([
            Vec3::new(fx(1.0), fx(1.0), fx(1.0)),
            Vec3::new(fx(2.0), fx(1.0), fx(-4.0)),
            Vec3::new(fx(0.0), fx(1.0), fx(0.0)),
        ]),
        2,
    )
    .unwrap();
    println!("{:?}", gso);
}

fn assert_orthonormal(m: &Mat3, tolerance: f64) {
    let t = m.transpose();
    let product = t.mul(m);
    let id = Mat3::identity();
    let cols = [
        (product.c0, id.c0),
        (product.c1, id.c1),
        (product.c2, id.c2),
    ];
    for (got, want) in cols.iter() {
        assert!(to_f64(got.x - want.x).abs() < tolerance);
        assert!(to_f64(got.y - want.y).abs() < tolerance);
        assert!(to_f64(got.z - want.z).abs() < tolerance);
    }
}

#[test]
fn gram_schmidt_output_is_orthonormal() {
    let input = matrix_from_columns([
        Vec3::new(fx(1.0), fx(1.0), fx(1.0)),
        Vec3::new(fx(2.0), fx(1.0), fx(-4.0)),
        Vec3::new(fx(0.0), fx(1.0), fx(0.0)),
    ]);
    for pivot in 0..3u8 {
        let gso = gram_schmidt_orthogonalization(&input, pivot).unwrap();
        assert_orthonormal(&gso, 1e-5);
    }
    let skewed = matrix_from_columns([
        Vec3::new(fx(0.3), fx(-0.2), fx(0.9)),
        Vec3::new(fx(1.5), fx(2.5), fx(-0.5)),
        Vec3::new(fx(-1.0), fx(0.25), fx(4.0)),
    ]);
    let gso = gram_schmidt_orthogonalization(&skewed, 1).unwrap();
    assert_orthonormal(&gso, 1e-5);
}

#[test]
fn gram_schmidt_keeps_pivot_direction() {
    let input = matrix_from_columns([
        Vec3::new(fx(3.0), fx(4.0), fx(0.0)),
        Vec3::new(fx(1.0), fx(0.0), fx(0.0)),
        Vec3::new(fx(0.0), fx(0.0), fx(2.0)),
    ]);
    let gso = gram_schmidt_orthogonalization(&input, 0).unwrap();
    assert!(gso.c0 == Vec3::new(fx(3.0), fx(4.0), fx(0.0)).normalise());
    assert!((to_f64(gso.c0.x) - 0.6).abs() < 1e-5);
    assert!((to_f64(gso.c0.y) - 0.8).abs() < 1e-5);
}

#[test]
fn gram_schmidt_rejects_degenerate_columns() {
    let flat = matrix_from_columns([
        Vec3::new(fx(1.0), fx(0.0), fx(0.0)),
        Vec3::new(fx(2.0), fx(0.0), fx(0.0)),
        Vec3::new(fx(3.0), fx(0.0), fx(0.0)),
    ]);
    assert_eq!(
        gram_schmidt_orthogonalization(&flat, 0),
        Err(SceneError::InvalidOrientation)
    );
    let zero = Mat3::identity().scale(0);
    assert_eq!(
        gram_schmidt_orthogonalization(&zero, 2),
        Err(SceneError::InvalidOrientation)
    );
}

#[test]
fn fixed_point_operations_are_exact_on_round_values() {
    assert_eq!(fx_add(fx(1.5), fx(2.25)), fx(3.75));
    assert_eq!(fx_sub(fx(1.0), fx(4.0)), fx(-3.0));
    assert_eq!(fx_mul(fx(1.5), fx(2.0)), fx(3.0));
    assert_eq!(fx_div(fx(7.0), fx(2.0)), fx(3.5));
    assert_eq!(fx_sqrt(fx(2.25)), fx(1.5));
    assert_eq!(fx_neg(fx(0.5)), fx(-0.5));
    assert_eq!(tz_div_i64(7, 2), 3);
    assert_eq!(tz_div_i64(-7, 2), -3);
}

#[test]
fn cross_and_dot_products() {
    let x = unit_x();
    let y = unit_y();
    assert!(x.cross(y) == unit_z());
    assert_eq!(x.dot(y), 0);
    assert_eq!(x.dot(x), FX_ONE);
    let v = Vec3::new(fx(3.0), fx(4.0), fx(0.0));
    assert_eq!(v.norm(), fx(5.0));
}

#[test]
fn matrix_inverse_of_rotation() {
    // A quarter turn in the first-second plane: the inverse is the
    // opposite turn, recovered exactly on these round entries.
    let rot = matrix_from_columns([
        Vec3::new(fx(0.0), fx(1.0), fx(0.0)),
        Vec3::new(fx(-1.0), fx(0.0), fx(0.0)),
        Vec3::new(fx(0.0), fx(0.0), fx(1.0)),
    ]);
    let inv = rot.try_inverse().unwrap();
    assert!(inv == rot.transpose());
    let singular = matrix_from_columns([
        Vec3::new(fx(1.0), fx(2.0), fx(3.0)),
        Vec3::new(fx(2.0), fx(4.0), fx(6.0)),
        Vec3::new(fx(0.0), fx(1.0), fx(0.0)),
    ]);
    assert!(singular.try_inverse().is_none());
}
