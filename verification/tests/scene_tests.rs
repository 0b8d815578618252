use raymarcher::FX_ONE;
use raymarcher::math::Vec3;
use raymarcher::objects::sphere::Sphere;
use raymarcher::objects::Object;
use raymarcher::math::unit_z;
use raymarcher::objects::plane::Plane;
use raymarcher::scene::Camera;
use raymarcher::screen::initialize_screen_buffer;

fn fx(v: f64) -> i64 {
    (v * FX_ONE as f64).round() as i64
}

fn to_f64(v: i64) -> f64 {
    v as f64 / FX_ONE as f64
}

fn sphere_scene() -> Object {
    Object::Sphere(Sphere::new(Vec3::zero(), fx(2.0)).unwrap())
}

#[test]
fn camera_default_sits_on_negative_second_axis() {
    let cam = Camera::default();
    assert_eq!(cam.position, Vec3::new(0, fx(-10.0), 0));
    let center_ray = cam.get_ray_from_camera(50, 180);
    // The exact forward direction: no horizontal or vertical offset.
    assert_eq!(center_ray, Vec3::new(0, FX_ONE, 0));
}

#[test]
fn center_ray_hits_sphere_head_on() {
    // A sphere of radius two, camera ten units back: the surface lies
    // eight units from the camera along the forward ray, its normal
    // faces the camera, and head-on lighting earns the densest ramp
    // character.
    let cam = Camera::default();
    let scene = sphere_scene();
    assert_eq!(scene.signed_distance_function(&cam.position), fx(8.0));
    let ray = cam.get_ray_from_camera(50, 180);
    let normal = cam.compute_intersection(&scene, &ray).unwrap();
    assert!(to_f64(normal.y) < -0.99);
    assert!(to_f64(normal.x).abs() < 0.05);
    assert!(to_f64(normal.z).abs() < 0.05);
    assert_eq!(cam.compute_light_intensity(&scene, &ray), '@');
    assert_eq!(cam.render_pixel(&scene, 50, 180), '@');
}

#[test]
fn ray_away_from_sphere_misses() {
    let cam = Camera::default();
    let scene = sphere_scene();
    let away = Vec3::new(0, -FX_ONE, 0);
    assert!(cam.compute_intersection(&scene, &away).is_none());
    assert_eq!(cam.compute_light_intensity(&scene, &away), ' ');
    // A corner cell's ray also passes wide of the sphere.
    assert_eq!(cam.render_pixel(&scene, 1, 1), ' ');
}

#[test]
fn camera_inside_object_reports_miss() {
    let cam = Camera {
        position: Vec3::zero(),
        matrix: raymarcher::math::Mat3::identity(),
    };
    let scene = sphere_scene();
    let ray = cam.get_ray_from_camera(50, 180);
    assert!(cam.compute_intersection(&scene, &ray).is_none());
    assert_eq!(cam.compute_light_intensity(&scene, &ray), ' ');
}

#[test]
fn parallel_ray_exhausts_step_budget() {
    // A ray gliding parallel to a half-space boundary a tenth of a unit
    // away: the distance never shrinks below the hit threshold and never
    // grows, so the march spends its whole step budget and reports a
    // miss (275 steps of 0.1 stay inside the 50-unit range).
    let cam = Camera {
        position: Vec3::zero(),
        matrix: raymarcher::math::Mat3::identity(),
    };
    let floor = Object::Plane(Plane::new(Vec3::new(0, 0, fx(-0.1)), unit_z()).unwrap());
    let along = Vec3::new(0, FX_ONE, 0);
    assert!(cam.compute_intersection(&floor, &along).is_none());
    assert_eq!(cam.compute_light_intensity(&floor, &along), ' ');
}

#[test]
fn screen_buffer_has_border_and_blank_interior() {
    let buffer = initialize_screen_buffer();
    assert_eq!(buffer.len(), 100);
    for row in buffer.iter() {
        assert_eq!(row.len(), 360);
    }
    // Corners take the side border.
    assert_eq!(buffer[0][0], '|');
    assert_eq!(buffer[0][359], '|');
    assert_eq!(buffer[99][0], '|');
    assert_eq!(buffer[99][359], '|');
    // Top and bottom edges are dashes, sides are pipes.
    assert_eq!(buffer[0][5], '-');
    assert_eq!(buffer[99][358], '-');
    assert_eq!(buffer[42][0], '|');
    assert_eq!(buffer[42][359], '|');
    // The interior starts blank.
    assert_eq!(buffer[1][1], ' ');
    assert_eq!(buffer[50][180], ' ');
}
