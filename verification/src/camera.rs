//! The camera: position, orientation and projection parameters.
//!
//! Deriving view and projection matrices, and moving or rotating the camera
//! along its local axes, are floating-point computations and belong to the
//! numeric layer of the host application; the core only owns the camera
//! record and the rule that at most one camera is active.

use vstd::prelude::*;
use crate::math::{Quat, Vec3};

verus! {

/// Bit pattern of the default field of view, 90.0 degrees.
pub const BITS_DEFAULT_FOV: u32 = 0x42B4_0000;
/// Bit pattern of the default near plane, 0.1.
pub const BITS_DEFAULT_NEAR: u32 = 0x3DCC_CCCD;
/// Bit pattern of the default far plane, 100.0.
pub const BITS_DEFAULT_FAR: u32 = 0x42C8_0000;

#[derive(Clone, Copy, Debug, PartialEq, Eq, Structural)]
pub struct Camera {
    pub position: Vec3,
    pub rotation: Quat,
    /// Field of view in degrees, as a bit pattern.
    pub fov: u32,
    /// Near clip plane distance, as a bit pattern.
    pub near: u32,
    /// Far clip plane distance, as a bit pattern.
    pub far: u32,
}

impl Camera {
    pub fn new(position: Vec3, rotation: Quat, fov: u32, near: u32, far: u32) -> (r: Camera)
        ensures
            r == (Camera { position, rotation, fov, near, far }),
    {
        Camera { position, rotation, fov, near, far }
    }
}

impl Default for Camera {
    /// A camera at the origin with identity orientation, 90 degree field of
    /// view, near plane 0.1 and far plane 100.0.
    fn default() -> (r: Camera)
        ensures
            r == Camera::spec_default(),
    {
        Camera {
            position: Vec3::zero(),
            rotation: Quat::identity(),
            fov: BITS_DEFAULT_FOV,
            near: BITS_DEFAULT_NEAR,
            far: BITS_DEFAULT_FAR,
        }
    }
}

impl Camera {
    pub open spec fn spec_default() -> Camera {
        Camera {
            position: Vec3::spec_zero(),
            rotation: Quat::spec_identity(),
            fov: BITS_DEFAULT_FOV,
            near: BITS_DEFAULT_NEAR,
            far: BITS_DEFAULT_FAR,
        }
    }
}

} // verus!
