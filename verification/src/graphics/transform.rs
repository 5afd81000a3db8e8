//! Symbolic model transforms and projection parameters.
//!
//! Draw plans carry transforms as plain parameters (scale, rotation,
//! translation) rather than evaluated matrices; the embedding turns them into
//! 4x4 float matrices. This keeps every derived quantity exact and provable.

use vstd::prelude::*;

use crate::fixed::Vec3Fx;

verus! {

/// The rotation part of a model transform.
#[derive(Clone, Copy, PartialEq, Eq, Structural, Debug)]
pub enum Rotation {
    /// No rotation at all.
    Identity,
    /// Rotation about the z axis by an angle in millidegrees.
    AboutZ { millideg: i64 },
    /// Rotation about the y axis by an angle in millidegrees.
    AboutY { millideg: i64 },
    /// Rotation about the z axis by the angle `atan2(dy, dx)` of a direction
    /// vector; the embedding evaluates the arc tangent.
    AboutZFromVector { dx: i64, dy: i64 },
}

impl Rotation {
    /// Whether the rotation is exactly the zero angle. A direction vector
    /// pointing along the positive x axis has `atan2(0, dx) == 0`.
    pub open spec fn spec_is_zero_angle(self) -> bool {
        match self {
            Rotation::Identity => true,
            Rotation::AboutZ { millideg } => millideg == 0,
            Rotation::AboutY { millideg } => millideg == 0,
            Rotation::AboutZFromVector { dx, dy } => dy == 0 && dx > 0,
        }
    }

    /// Whether the rotation is exactly the zero angle.
    pub fn is_zero_angle(&self) -> (r: bool)
        ensures
            r == self.spec_is_zero_angle(),
    {
        match self {
            Rotation::Identity => true,
            Rotation::AboutZ { millideg } => *millideg == 0,
            Rotation::AboutY { millideg } => *millideg == 0,
            Rotation::AboutZFromVector { dx, dy } => *dy == 0 && *dx > 0,
        }
    }
}

/// A model transform: scale, then rotate, then translate.
#[derive(Clone, Copy, PartialEq, Eq, Structural, Debug)]
pub struct Transform {
    pub scale: Vec3Fx,
    pub rotation: Rotation,
    pub translation: Vec3Fx,
}

/// Parameters of an orthographic projection.
#[derive(Clone, Copy, PartialEq, Eq, Structural, Debug)]
pub struct OrthoParams {
    pub left: i64,
    pub right: i64,
    pub bottom: i64,
    pub top: i64,
    pub near: i64,
    pub far: i64,
}

/// Parameters of a perspective projection; the aspect ratio is kept as a
/// width/height pair so it stays exact.
#[derive(Clone, Copy, PartialEq, Eq, Structural, Debug)]
pub struct PerspectiveParams {
    pub fov_y_millideg: i64,
    pub aspect_width: i64,
    pub aspect_height: i64,
    pub near: i64,
    pub far: i64,
}

/// Parameters of a right-handed look-to view transform built from the camera
/// position and orientation with a fixed world up vector, so the horizon
/// stays level however the camera tilts.
#[derive(Clone, Copy, PartialEq, Eq, Structural, Debug)]
pub struct ViewParams {
    pub position: Vec3Fx,
    pub yaw_millideg: i64,
    pub pitch_millideg: i64,
}

/// A 4x4 matrix described by the parameters it is built from.
#[derive(Clone, Copy, PartialEq, Eq, Structural, Debug)]
pub enum MatrixSpec {
    Model(Transform),
    Orthographic(OrthoParams),
    Perspective(PerspectiveParams),
    View(ViewParams),
}

} // verus!
