//! The light component.
//!
//! A light's position is authored through the owning entity's transform and
//! copied into the light record when lights are collected for a frame, so
//! the two never drift apart. The engine uploads at most [`MAX_LIGHTS`]
//! lights per frame; the collection step truncates deterministically past
//! that capacity instead of letting the GPU buffer overflow.

use vstd::prelude::*;
use crate::math::{Vec3, BITS_ONE};

verus! {

/// Capacity of the GPU light buffer. Kept in step with the shader.
pub const MAX_LIGHTS: usize = 100;

/// Bit pattern of the default light intensity, 1.0.
pub const BITS_DEFAULT_INTENSITY: u32 = BITS_ONE;
/// Bit pattern of the default light range, 100.0.
pub const BITS_DEFAULT_RANGE: u32 = 0x42C8_0000;

/// Kind tag of a point light.
pub const LIGHT_TYPE_POINT: u32 = 0;

#[derive(Clone, Copy, Debug, PartialEq, Eq, Structural)]
pub struct Light {
    pub position: Vec3,
    pub light_type: u32,
    pub color: Vec3,
    /// Intensity, as a bit pattern.
    pub intensity: u32,
    /// Range, as a bit pattern.
    pub range: u32,
}

impl Light {
    /// A light of the given kind at the origin; the position is overwritten
    /// from the owning entity's transform at collection time.
    pub fn new(light_type: u32, color: Vec3, intensity: u32, range: u32) -> (r: Light)
        ensures
            r == (Light { position: Vec3::spec_zero(), light_type, color, intensity, range }),
    {
        Light { position: Vec3::zero(), light_type, color, intensity, range }
    }
}

impl Default for Light {
    /// A white point light of intensity 1.0 and range 100.0 at the origin.
    fn default() -> (r: Light)
        ensures
            r == Light::spec_default(),
    {
        Light {
            position: Vec3::zero(),
            light_type: LIGHT_TYPE_POINT,
            color: Vec3::ones(),
            intensity: BITS_DEFAULT_INTENSITY,
            range: BITS_DEFAULT_RANGE,
        }
    }
}

impl Light {
    pub open spec fn spec_default() -> Light {
        Light {
            position: Vec3::spec_zero(),
            light_type: LIGHT_TYPE_POINT,
            color: Vec3::spec_ones(),
            intensity: BITS_DEFAULT_INTENSITY,
            range: BITS_DEFAULT_RANGE,
        }
    }
}

} // verus!
