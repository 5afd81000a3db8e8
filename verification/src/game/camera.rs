//! The first-person camera.
//!
//! Orientation is kept as yaw and pitch; the front, right and up vectors
//! are derived from them — never stored — by the spherical parameterization
//! `front = (cos yaw * cos pitch, sin pitch, sin yaw * cos pitch)`, so the
//! basis cannot drift. Evaluating the trigonometry is the embedding's work:
//! movement takes the normalized ground projection of the front vector as a
//! plain value and the camera proves what it does with it — in particular,
//! walking never changes the camera's height, whatever direction is handed
//! in.

use vstd::prelude::*;

use crate::fixed::div_trunc;
use crate::fixed::lemma_div_trunc_bound;
use crate::fixed::spec_div_trunc;
use crate::fixed::Vec3Fx;
use crate::fixed::FX_ONE;
use crate::graphics::transform::ViewParams;

verus! {

/// The pitch clamp bound, 89 degrees, keeping the camera short of the
/// poles to avoid gimbal flip.
pub const PITCH_LIMIT_MILLIDEG: i64 = 89_000;

/// Bound on the movement speed the camera may be configured with.
pub const SPEED_LIMIT: i64 = 1_000_000;

/// Positions this far from the i64 boundary can always take one more step.
pub const POSITION_STEP_SAFE: i64 = i64::MAX - SPEED_LIMIT;

/// A unit direction in the ground plane, handed to the camera by the
/// embedding: the horizontal projection of the front vector, normalized.
/// Its components are fixed-point fractions in `[-1, 1]`.
#[derive(Clone, Copy, PartialEq, Eq, Structural, Debug)]
pub struct GroundDir {
    pub x: i64,
    pub z: i64,
}

impl GroundDir {
    /// The components stay within one fixed-point unit.
    pub open spec fn wf(self) -> bool {
        &&& -FX_ONE <= self.x <= FX_ONE
        &&& -FX_ONE <= self.z <= FX_ONE
    }
}

/// Position and orientation of the walking camera. Yaw and pitch are in
/// millidegrees; positions in fixed-point units.
#[derive(Clone, Copy, PartialEq, Eq, Structural, Debug)]
pub struct Camera {
    pub position: Vec3Fx,
    pub yaw_millideg: i64,
    pub pitch_millideg: i64,
    pub movement_speed: i64,
}

/// Clamping a pitch angle into the allowed range.
pub open spec fn spec_clamp_pitch(p: int) -> int {
    if p > PITCH_LIMIT_MILLIDEG as int {
        PITCH_LIMIT_MILLIDEG as int
    } else if p < -(PITCH_LIMIT_MILLIDEG as int) {
        -(PITCH_LIMIT_MILLIDEG as int)
    } else {
        p
    }
}

/// What one pitch rotation does: accumulate, then clamp.
pub open spec fn spec_rotate_pitch(c: Camera, angle_millideg: int) -> Camera {
    Camera {
        pitch_millideg: spec_clamp_pitch(c.pitch_millideg + angle_millideg) as i64,
        ..c
    }
}

/// What one yaw rotation does: accumulate.
pub open spec fn spec_rotate_yaw(c: Camera, angle_millideg: int) -> Camera {
    Camera { yaw_millideg: (c.yaw_millideg + angle_millideg) as i64, ..c }
}

/// One movement step along a ground direction: the direction scaled by the
/// movement speed, in fixed-point.
pub open spec fn spec_ground_step(dir_component: int, speed: int) -> int {
    spec_div_trunc(dir_component * speed, FX_ONE as int)
}

/// What moving along the main (forward) axis does: translate in the ground
/// plane along `dir`, forward or backward. The y position never changes.
pub open spec fn spec_move_main_axis(c: Camera, forward: bool, dir: GroundDir) -> Camera {
    let sx = spec_ground_step(dir.x as int, c.movement_speed as int);
    let sz = spec_ground_step(dir.z as int, c.movement_speed as int);
    if forward {
        Camera {
            position: Vec3Fx {
                x: (c.position.x + sx) as i64,
                y: c.position.y,
                z: (c.position.z + sz) as i64,
            },
            ..c
        }
    } else {
        Camera {
            position: Vec3Fx {
                x: (c.position.x - sx) as i64,
                y: c.position.y,
                z: (c.position.z - sz) as i64,
            },
            ..c
        }
    }
}

/// What strafing does: translate along the right vector
/// `(-dir.z, 0, dir.x)` — the cross product of the ground direction with
/// world up, which is again a unit ground direction. The y position never
/// changes.
pub open spec fn spec_move_cross_axis(c: Camera, move_right: bool, dir: GroundDir) -> Camera {
    spec_move_main_axis(c, move_right, GroundDir { x: -dir.z as i64, z: dir.x })
}

impl Camera {
    /// Well-formedness: the pitch is clamped and the speed bounded.
    /// Constructors establish it and every method preserves it.
    pub open spec fn wf(self) -> bool {
        &&& -PITCH_LIMIT_MILLIDEG <= self.pitch_millideg <= PITCH_LIMIT_MILLIDEG
        &&& 0 <= self.movement_speed <= SPEED_LIMIT
    }

    /// A camera at the origin looking along the negative z axis (yaw -90
    /// degrees), level, moving four units per step.
    pub fn new() -> (r: Camera)
        ensures
            r == (Camera {
                position: Vec3Fx { x: 0, y: 0, z: 0 },
                yaw_millideg: -90_000i64,
                pitch_millideg: 0i64,
                movement_speed: (4 * FX_ONE) as i64,
            }),
            r.wf(),
    {
        Camera {
            position: Vec3Fx { x: 0, y: 0, z: 0 },
            yaw_millideg: -90_000,
            pitch_millideg: 0,
            movement_speed: 4 * FX_ONE,
        }
    }

    /// The parameters of the right-handed look-to view transform: the
    /// camera's position and orientation, with the world up vector fixed so
    /// the horizon stays level.
    pub fn get_view_matrix(&self) -> (r: ViewParams)
        ensures
            r == (ViewParams {
                position: self.position,
                yaw_millideg: self.yaw_millideg,
                pitch_millideg: self.pitch_millideg,
            }),
    {
        ViewParams {
            position: self.position,
            yaw_millideg: self.yaw_millideg,
            pitch_millideg: self.pitch_millideg,
        }
    }

    /// Walk forward or backward along the ground projection of the front
    /// vector: the vertical look angle never affects translation, and the
    /// world-y position never changes.
    pub fn move_main_axis(&mut self, forward: bool, dir: GroundDir)
        requires
            old(self).wf(),
            dir.wf(),
            -POSITION_STEP_SAFE <= old(self).position.x <= POSITION_STEP_SAFE,
            -POSITION_STEP_SAFE <= old(self).position.z <= POSITION_STEP_SAFE,
        ensures
            final(self).wf(),
            *final(self) == spec_move_main_axis(*old(self), forward, dir),
            final(self).position.y == old(self).position.y,
            -SPEED_LIMIT <= final(self).position.x - old(self).position.x <= SPEED_LIMIT,
            -SPEED_LIMIT <= final(self).position.z - old(self).position.z <= SPEED_LIMIT,
            final(self).yaw_millideg == old(self).yaw_millideg,
            final(self).pitch_millideg == old(self).pitch_millideg,
            final(self).movement_speed == old(self).movement_speed,
    {
        proof {
            assert(-(SPEED_LIMIT as int) * (FX_ONE as int) <= (dir.x as int)
                * (self.movement_speed as int) <= (SPEED_LIMIT as int) * (FX_ONE as int))
                by (nonlinear_arith)
                requires
                    -FX_ONE <= dir.x <= FX_ONE,
                    0 <= self.movement_speed <= SPEED_LIMIT,
            ;
            assert(-(SPEED_LIMIT as int) * (FX_ONE as int) <= (dir.z as int)
                * (self.movement_speed as int) <= (SPEED_LIMIT as int) * (FX_ONE as int))
                by (nonlinear_arith)
                requires
                    -FX_ONE <= dir.z <= FX_ONE,
                    0 <= self.movement_speed <= SPEED_LIMIT,
            ;
            lemma_div_trunc_bound(
                (dir.x as int) * (self.movement_speed as int),
                FX_ONE as int,
                SPEED_LIMIT as int,
            );
            lemma_div_trunc_bound(
                (dir.z as int) * (self.movement_speed as int),
                FX_ONE as int,
                SPEED_LIMIT as int,
            );
        }
        let sx = div_trunc(dir.x * self.movement_speed, FX_ONE);
        let sz = div_trunc(dir.z * self.movement_speed, FX_ONE);
        if forward {
            self.position = Vec3Fx {
                x: self.position.x + sx,
                y: self.position.y,
                z: self.position.z + sz,
            };
        } else {
            self.position = Vec3Fx {
                x: self.position.x - sx,
                y: self.position.y,
                z: self.position.z - sz,
            };
        }
    }

    /// Strafe right or left along the cross product of the ground-plane
    /// front direction with world up. The world-y position never changes.
    pub fn move_cross_axis(&mut self, move_right: bool, dir: GroundDir)
        requires
            old(self).wf(),
            dir.wf(),
            -POSITION_STEP_SAFE <= old(self).position.x <= POSITION_STEP_SAFE,
            -POSITION_STEP_SAFE <= old(self).position.z <= POSITION_STEP_SAFE,
        ensures
            final(self).wf(),
            *final(self) == spec_move_cross_axis(*old(self), move_right, dir),
            final(self).position.y == old(self).position.y,
            -SPEED_LIMIT <= final(self).position.x - old(self).position.x <= SPEED_LIMIT,
            -SPEED_LIMIT <= final(self).position.z - old(self).position.z <= SPEED_LIMIT,
            final(self).yaw_millideg == old(self).yaw_millideg,
            final(self).pitch_millideg == old(self).pitch_millideg,
            final(self).movement_speed == old(self).movement_speed,
    {
        let right = GroundDir { x: -dir.z, z: dir.x };
        self.move_main_axis(move_right, right);
    }

    /// Turn: accumulate the yaw angle.
    pub fn rotate_yaw(&mut self, angle_millideg: i64)
        requires
            old(self).wf(),
            i64::MIN <= old(self).yaw_millideg + angle_millideg <= i64::MAX,
        ensures
            final(self).wf(),
            *final(self) == spec_rotate_yaw(*old(self), angle_millideg as int),
    {
        self.yaw_millideg = self.yaw_millideg + angle_millideg;
    }

    /// Look up or down: accumulate the pitch angle, clamped to
    /// [-89, 89] degrees to avoid flipping over the poles.
    pub fn rotate_pitch(&mut self, angle_millideg: i64)
        requires
            old(self).wf(),
            i64::MIN <= old(self).pitch_millideg + angle_millideg <= i64::MAX,
        ensures
            final(self).wf(),
            *final(self) == spec_rotate_pitch(*old(self), angle_millideg as int),
            -PITCH_LIMIT_MILLIDEG <= final(self).pitch_millideg <= PITCH_LIMIT_MILLIDEG,
    {
        let p = self.pitch_millideg + angle_millideg;
        self.pitch_millideg = if p > PITCH_LIMIT_MILLIDEG {
            PITCH_LIMIT_MILLIDEG
        } else if p < -PITCH_LIMIT_MILLIDEG {
            -PITCH_LIMIT_MILLIDEG
        } else {
            p
        };
    }
}

/// A sequence of pitch rotations applied in order.
pub open spec fn spec_apply_pitch_rotations(c: Camera, deltas: Seq<int>) -> Camera
    decreases deltas.len(),
{
    if deltas.len() == 0 {
        c
    } else {
        spec_rotate_pitch(spec_apply_pitch_rotations(c, deltas.drop_last()), deltas.last())
    }
}

/// After any sequence of pitch rotations, the pitch of a well-formed
/// camera always lies in [-89, 89] degrees.
pub proof fn lemma_pitch_always_clamped(c: Camera, deltas: Seq<int>)
    requires
        -PITCH_LIMIT_MILLIDEG <= c.pitch_millideg <= PITCH_LIMIT_MILLIDEG,
    ensures
        -PITCH_LIMIT_MILLIDEG <= spec_apply_pitch_rotations(c, deltas).pitch_millideg
            <= PITCH_LIMIT_MILLIDEG,
    decreases deltas.len(),
{
    if deltas.len() > 0 {
        lemma_pitch_always_clamped(c, deltas.drop_last());
    }
}

/// Walking and strafing never change the camera's world-y position,
/// whatever the current pitch and whatever ground direction the embedding
/// hands in.
pub proof fn lemma_moves_preserve_height(
    c: Camera,
    forward: bool,
    move_right: bool,
    dir: GroundDir,
)
    ensures
        spec_move_main_axis(c, forward, dir).position.y == c.position.y,
        spec_move_cross_axis(c, move_right, dir).position.y == c.position.y,
{
}

} // verus!
