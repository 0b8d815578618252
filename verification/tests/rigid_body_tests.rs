use raymarcher::FX_ONE;
use raymarcher::error::SceneError;
use raymarcher::math::{Mat3, Vec3};
use raymarcher::objects::cuboid::Cuboid;
use raymarcher::rigid_body::define_scene_cuboid;

fn fx(v: f64) -> i64 {
    (v * FX_ONE as f64).round() as i64
}

fn to_f64(v: i64) -> f64 {
    v as f64 / FX_ONE as f64
}

#[test]
fn moment_of_inertia_of_unit_cuboid() {
    // For sides (1, 2, 3): diag((4+9)/12, (1+9)/12, (1+4)/12).
    let c = Cuboid::new(fx(1.0), fx(2.0), fx(3.0)).unwrap();
    let i0 = c.get_moment_of_inertia();
    assert!((to_f64(i0.c0.x) - 13.0 / 12.0).abs() < 1e-6);
    assert!((to_f64(i0.c1.y) - 10.0 / 12.0).abs() < 1e-6);
    assert!((to_f64(i0.c2.z) - 5.0 / 12.0).abs() < 1e-6);
    assert_eq!(i0.c0.y, 0);
    assert_eq!(i0.c1.z, 0);
    assert_eq!(i0.c2.x, 0);
}

#[test]
fn rotational_energy_at_identity_orientation() {
    // E = L . I^-1 L = 9 * 12/10 + 0.0001 * 12/5.
    let c = define_scene_cuboid();
    let momentum = Vec3::new(0, fx(3.0), fx(0.01));
    let energy = c.compute_energy_of_rotation(&momentum).unwrap();
    let expected = 9.0 * 12.0 / 10.0 + 0.0001 * 12.0 / 5.0;
    assert!((to_f64(energy) - expected).abs() < 1e-3);
}

#[test]
fn propagation_conserves_energy_within_one_percent() {
    // Ten thousand sub-steps at dt = 1 / (50 * 10000): the energy
    // rescaling keeps the rotational energy at the target within 1%.
    let mut object = define_scene_cuboid();
    let momentum = Vec3::new(0, fx(3.0), fx(0.01));
    let energy = object.compute_energy_of_rotation(&momentum).unwrap();
    let dt = fx(1.0 / (50.0 * 10000.0));
    let mut index_for_gso: u8 = 0;
    for _ in 0..10000 {
        object
            .propagate_rotation(&momentum, energy, dt, index_for_gso)
            .unwrap();
        index_for_gso = (index_for_gso + 1) % 3;
    }
    let after = object.compute_energy_of_rotation(&momentum).unwrap();
    let relative = (to_f64(after) - to_f64(energy)).abs() / to_f64(energy);
    assert!(relative < 0.01, "relative energy drift {}", relative);

    // The orientation matrix stays orthogonal within tolerance.
    let r_inv = object.get_inverse_orientation_matrix();
    let product = r_inv.transpose().mul(&r_inv);
    let id = Mat3::identity();
    for (got, want) in [
        (product.c0, id.c0),
        (product.c1, id.c1),
        (product.c2, id.c2),
    ] {
        assert!(to_f64(got.x - want.x).abs() < 1e-4);
        assert!(to_f64(got.y - want.y).abs() < 1e-4);
        assert!(to_f64(got.z - want.z).abs() < 1e-4);
    }
}

#[test]
fn step_loop_matches_manual_stepping() {
    // Running the sub-step loop in one call leaves exactly the state
    // that stepping by hand does, pivot cycling included.
    let momentum = Vec3::new(0, fx(3.0), fx(0.01));
    let dt = fx(1.0 / (50.0 * 10000.0));
    let mut by_loop = define_scene_cuboid();
    let energy = by_loop.compute_energy_of_rotation(&momentum).unwrap();
    by_loop
        .propagate_rotation_steps(&momentum, energy, dt, 0, 300)
        .unwrap();
    let mut by_hand = define_scene_cuboid();
    let mut index: u8 = 0;
    for _ in 0..300 {
        by_hand.propagate_rotation(&momentum, energy, dt, index).unwrap();
        index = (index + 1) % 3;
    }
    assert_eq!(
        by_loop.get_inverse_orientation_matrix(),
        by_hand.get_inverse_orientation_matrix()
    );
}

#[test]
fn propagation_rejects_nonpositive_energy() {
    let mut object = define_scene_cuboid();
    let momentum = Vec3::new(0, fx(3.0), fx(0.01));
    assert_eq!(
        object.propagate_rotation(&momentum, 0, fx(0.001), 0).unwrap_err(),
        SceneError::DegenerateConfiguration
    );
    assert_eq!(
        object.propagate_rotation(&momentum, fx(-1.0), fx(0.001), 1).unwrap_err(),
        SceneError::DegenerateConfiguration
    );
}

#[test]
fn singular_orientation_is_reported() {
    let mut object = define_scene_cuboid();
    object.components.inverse_orientation_matrix = Mat3::identity().scale(0);
    let momentum = Vec3::new(0, fx(3.0), fx(0.01));
    assert_eq!(
        object.get_current_moment_of_inertia().unwrap_err(),
        SceneError::InvalidOrientation
    );
    assert_eq!(
        object.compute_energy_of_rotation(&momentum).unwrap_err(),
        SceneError::InvalidOrientation
    );
    assert_eq!(
        object.propagate_rotation(&momentum, fx(10.0), fx(0.001), 2).unwrap_err(),
        SceneError::InvalidOrientation
    );
}

#[test]
fn scene_cuboid_has_unit_sides() {
    let c = define_scene_cuboid();
    assert_eq!(c.side_a, fx(1.0));
    assert_eq!(c.side_b, fx(2.0));
    assert_eq!(c.side_c, fx(3.0));
    assert_eq!(c.get_center(), Vec3::zero());
    assert_eq!(c.get_inverse_orientation_matrix(), Mat3::identity());
}
