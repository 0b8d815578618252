//! The sphere-tracing engine: a camera that casts one ray per character
//! cell, marches it against a scene's signed-distance function, and turns
//! the surface normal at a hit into a character of a brightness ramp.

use vstd::prelude::*;

use crate::constants::{FOV, H_W_RATIO, HEIGHT, WIDTH, MAX_ITERATIONS};
use crate::fixed::{
    FX_ONE, sat_i64, sat_sub, sat_neg, tz_div, fx_mul_spec, fx_div_spec, fx_mul, fx_div, fx_sub,
    fx_neg, tz_div_i64,
};
use crate::math::{
    Vec3, Mat3, m_identity, m_vec_mul, v_add, v_sub, v_neg, v_scale, v_dot, v_norm, v_normalise,
    Normalize,
};
use crate::objects::{Object, wf, sdf};

verus! {

/// A ray is considered to have hit a surface when the scene's distance
/// falls under this threshold (0.003, fixed point).
pub const MIN_DISTANCE: i64 = 12884902;

/// A ray that has travelled farther than this from the camera is a miss
/// (50.0, fixed point).
pub const MAX_DISTANCE_FROM_CAMERA: i64 = 214748364800;

/// One tenth (0.1, fixed point): the size of the finite-difference probe
/// relative to the hit threshold.
pub const PROBE_SCALE: i64 = 429496730;

/// The point of view: a position in world coordinates and a matrix whose
/// columns map camera coordinates to world coordinates (first column
/// screen-right, second the facing direction, third up).
#[derive(Clone, Copy, Debug, PartialEq, Eq, Structural)]
pub struct Camera {
    pub position: Vec3,
    pub matrix: Mat3,
}

/// The camera-local ray direction for the character cell at row `y`,
/// column `x`: unit forward plus horizontal and vertical offsets scaled
/// by the field of view and the aspect ratio.
pub open spec fn camera_cell_direction(y: int, x: int) -> Vec3 {
    let step = sat_i64(tz_div(FOV as int, WIDTH as int));
    let zstep = fx_mul_spec(sat_neg(step), H_W_RATIO as int);
    Vec3 {
        x: (step * (x - WIDTH as int / 2)) as i64,
        y: FX_ONE,
        z: (zstep * (y - HEIGHT as int / 2)) as i64,
    }
}

/// The world-space ray direction for a cell: the camera-local direction
/// carried through the camera matrix and normalised (a degenerate
/// all-zero image is returned as it is).
pub open spec fn camera_ray_spec(cam: Camera, y: int, x: int) -> Vec3 {
    let w = m_vec_mul(cam.matrix, camera_cell_direction(y, x));
    if v_norm(w) == 0 {
        w
    } else {
        v_normalise(w)
    }
}

/// The surface normal reported at a hit: finite differences of the
/// scene's distance along a small probe per axis, normalised. `None`
/// when the differences vanish and no direction can be normalised.
pub open spec fn march_normal_spec(o: Object, front: Vec3, dist: int) -> Option<Vec3> {
    let dx = v_scale(MIN_DISTANCE as int, Vec3 { x: PROBE_SCALE, y: 0i64, z: 0i64 });
    let dy = v_scale(MIN_DISTANCE as int, Vec3 { x: 0i64, y: PROBE_SCALE, z: 0i64 });
    let dz = v_scale(MIN_DISTANCE as int, Vec3 { x: 0i64, y: 0i64, z: PROBE_SCALE });
    let n = Vec3 {
        x: fx_div_spec(sat_sub(sdf(o, v_add(front, dx)), dist), MIN_DISTANCE as int) as i64,
        y: fx_div_spec(sat_sub(sdf(o, v_add(front, dy)), dist), MIN_DISTANCE as int) as i64,
        z: fx_div_spec(sat_sub(sdf(o, v_add(front, dz)), dist), MIN_DISTANCE as int) as i64,
    };
    if v_norm(n) == 0 {
        Option::None
    } else {
        Option::Some(v_normalise(n))
    }
}

/// The state of the march after some steps: with `iters` steps left,
/// either the front is within the hit threshold (report the normal
/// there), or the front advances by the current distance along the ray,
/// missing once it leaves the camera's range or exhausts its steps.
pub open spec fn march_from_spec(
    o: Object,
    origin: Vec3,
    dir: Vec3,
    front: Vec3,
    dist: int,
    iters: nat,
) -> Option<Vec3>
    decreases iters,
{
    if iters == 0 {
        Option::None
    } else if dist < MIN_DISTANCE {
        march_normal_spec(o, front, dist)
    } else {
        let front2 = v_add(front, v_scale(dist, dir));
        if v_norm(v_sub(front2, origin)) > MAX_DISTANCE_FROM_CAMERA {
            Option::None
        } else {
            march_from_spec(o, origin, dir, front2, sdf(o, front2), (iters - 1) as nat)
        }
    }
}

/// What a full march from the camera yields: an immediate miss when the
/// camera starts inside the scene (negative distance), otherwise the
/// march from the camera position with the full step budget.
pub open spec fn march_spec(cam: Camera, o: Object, dir: Vec3) -> Option<Vec3> {
    let d0 = sdf(o, cam.position);
    if d0 < 0 {
        Option::None
    } else {
        march_from_spec(o, cam.position, dir, cam.position, d0, MAX_ITERATIONS as nat)
    }
}

/// The character a hit normal earns: the Lambertian intensity of the
/// normal against the view direction, truncated onto the ten-character
/// brightness ramp; below the ramp is blank, above is the densest
/// character.
pub open spec fn shade_spec(normal: Vec3, dir: Vec3) -> char {
    let back = v_neg(dir);
    if v_norm(back) == 0 {
        ' '
    } else {
        let intensity = v_dot(normal, v_normalise(back));
        let index = sat_i64(tz_div(fx_mul_spec(intensity, 42949672960), FX_ONE as int));
        if index < 0 {
            ' '
        } else if index > 9 {
            '@'
        } else {
            ramp_char(index)
        }
    }
}

/// The fixed brightness ramp, faintest first.
pub open spec fn ramp_char(index: int) -> char
    recommends
        0 <= index <= 9,
{
    if index == 0 {
        ','
    } else if index == 1 {
        ':'
    } else if index == 2 {
        ';'
    } else if index == 3 {
        '+'
    } else if index == 4 {
        '*'
    } else if index == 5 {
        '@'
    } else if index == 6 {
        '%'
    } else if index == 7 {
        '$'
    } else if index == 8 {
        '#'
    } else {
        '@'
    }
}

/// The character the scene earns at one cell: a blank for a miss, the
/// shaded normal for a hit. This is the whole per-cell computation, free
/// of shared state, so cells may be rendered in any order.
pub open spec fn light_intensity_spec(cam: Camera, o: Object, dir: Vec3) -> char {
    match march_spec(cam, o, dir) {
        Option::Some(normal) => shade_spec(normal, dir),
        Option::None => ' ',
    }
}

impl Camera {
    /// The world-space ray direction through the character cell at row
    /// `y`, column `x`.
    pub fn get_ray_from_camera(&self, y: i32, x: i32) -> (r: Vec3)
        ensures
            r == camera_ray_spec(*self, y as int, x as int),
    {
        let step = tz_div_i64(FOV, WIDTH as i64);
        let zstep = fx_mul(fx_neg(step), H_W_RATIO);
        proof {
            vstd::arithmetic::div_mod::lemma_fundamental_div_mod_converse(
                3435973837,
                360,
                9544371,
                277,
            );
            assert(step == 9544371);
            assert(9544371 * 8589934592 == 81985522611781632) by (nonlinear_arith);
            vstd::arithmetic::div_mod::lemma_fundamental_div_mod_converse(
                81985522611781632,
                4294967296,
                19088742,
                0,
            );
            assert(zstep == -19088742);
        }
        let local = Vec3 {
            x: step * (x as i64 - (WIDTH / 2) as i64),
            y: FX_ONE,
            z: zstep * (y as i64 - (HEIGHT / 2) as i64),
        };
        let w = self.matrix.vec_mul(local);
        if w.norm() == 0 {
            w
        } else {
            w.normalise()
        }
    }

    /// March a ray from the camera against the scene: the normal of the
    /// surface the ray hits, or `None` when the camera starts inside the
    /// scene, the ray leaves the camera's range, or the step budget runs
    /// out. `direction` should be normalised.
    pub fn compute_intersection(&self, object: &Object, direction: &Vec3) -> (r: Option<Vec3>)
        requires
            wf(*object),
        ensures
            r == march_spec(*self, *object, *direction),
    {
        let mut ray_front = self.position;
        let mut distance = object.signed_distance_function(&ray_front);
        if distance < 0 {
            return Option::None;
        }
        let mut iter: u16 = 0;
        while iter < MAX_ITERATIONS
            invariant
                wf(*object),
                0 <= iter <= MAX_ITERATIONS,
                march_from_spec(
                    *object,
                    self.position,
                    *direction,
                    ray_front,
                    distance as int,
                    (MAX_ITERATIONS - iter) as nat,
                ) == march_spec(*self, *object, *direction),
            decreases MAX_ITERATIONS - iter,
        {
            if distance < MIN_DISTANCE {
                let probe_x = Vec3 { x: PROBE_SCALE, y: 0, z: 0 }.scale(MIN_DISTANCE);
                let probe_y = Vec3 { x: 0, y: PROBE_SCALE, z: 0 }.scale(MIN_DISTANCE);
                let probe_z = Vec3 { x: 0, y: 0, z: PROBE_SCALE }.scale(MIN_DISTANCE);
                let n = Vec3 {
                    x: fx_div(
                        fx_sub(
                            object.signed_distance_function(&ray_front.add(probe_x)),
                            distance,
                        ),
                        MIN_DISTANCE,
                    ),
                    y: fx_div(
                        fx_sub(
                            object.signed_distance_function(&ray_front.add(probe_y)),
                            distance,
                        ),
                        MIN_DISTANCE,
                    ),
                    z: fx_div(
                        fx_sub(
                            object.signed_distance_function(&ray_front.add(probe_z)),
                            distance,
                        ),
                        MIN_DISTANCE,
                    ),
                };
                if n.norm() == 0 {
                    return Option::None;
                }
                return Option::Some(n.normalise());
            } else {
                ray_front = ray_front.add(direction.scale(distance));
            }
            if ray_front.sub(self.position).norm() > MAX_DISTANCE_FROM_CAMERA {
                return Option::None;
            }
            distance = object.signed_distance_function(&ray_front);
            iter = iter + 1;
        }
        Option::None
    }

    /// The character the scene earns for a ray: blank for a miss, the
    /// Lambertian-shaded ramp character for a hit.
    pub fn compute_light_intensity(&self, object: &Object, direction: &Vec3) -> (r: char)
        requires
            wf(*object),
        ensures
            r == light_intensity_spec(*self, *object, *direction),
    {
        let hit = self.compute_intersection(object, direction);
        let normal = match hit {
            Option::Some(n) => n,
            Option::None => {
                return ' ';
            },
        };
        let back = direction.neg();
        if back.norm() == 0 {
            return ' ';
        }
        let intensity = normal.dot(back.normalise());
        let index = tz_div_i64(fx_mul(intensity, 42949672960), FX_ONE);
        if index < 0 {
            return ' ';
        }
        if index > 9 {
            return '@';
        }
        let table: [char; 10] = [',', ':', ';', '+', '*', '@', '%', '$', '#', '@'];
        let out = table[index as usize];
        proof {
            assert(table@[index as int] == ramp_char(index as int));
        }
        out
    }

    /// The character the scene earns at one character cell: the pure
    /// per-cell rendering function.
    pub fn render_pixel(&self, object: &Object, y: i32, x: i32) -> (r: char)
        requires
            wf(*object),
        ensures
            r == light_intensity_spec(
                *self,
                *object,
                camera_ray_spec(*self, y as int, x as int),
            ),
    {
        let ray = self.get_ray_from_camera(y, x);
        self.compute_light_intensity(object, &ray)
    }

    /// The default point of view: on the negative second axis, ten units
    /// from the origin, facing along it with the identity basis.
    pub fn default() -> (r: Camera)
        ensures
            r == (Camera {
                position: Vec3 { x: 0i64, y: -42949672960i64, z: 0i64 },
                matrix: m_identity(),
            }),
    {
        Camera {
            position: Vec3 { x: 0, y: -42949672960, z: 0 },
            matrix: Mat3::identity(),
        }
    }
}

} // verus!
