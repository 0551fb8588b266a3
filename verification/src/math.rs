//! Scalar and small-vector value types of the engine core.
//!
//! Every scalar field in this module holds the bit pattern of an IEEE-754
//! single-precision value. The core moves these patterns around — stores
//! them, copies them, compares them — but never does arithmetic on them;
//! numeric work (vector algebra, quaternion products, matrix math) belongs
//! to the numeric layer of the host application, which converts to and from
//! native floating point at the boundary.

use vstd::prelude::*;

verus! {

/// Bit pattern of 0.0.
pub const BITS_ZERO: u32 = 0x0000_0000;
/// Bit pattern of 1.0.
pub const BITS_ONE: u32 = 0x3F80_0000;
/// Bit pattern of -1.0.
pub const BITS_NEG_ONE: u32 = 0xBF80_0000;
/// Bit pattern of 0.5.
pub const BITS_HALF: u32 = 0x3F00_0000;
/// Bit pattern of -0.5.
pub const BITS_NEG_HALF: u32 = 0xBF00_0000;

/// A three-component vector; each component is an IEEE-754 bit pattern.
#[derive(Clone, Copy, Debug, PartialEq, Eq, Structural)]
pub struct Vec3 {
    pub x: u32,
    pub y: u32,
    pub z: u32,
}

impl Vec3 {
    pub fn new(x: u32, y: u32, z: u32) -> (r: Vec3)
        ensures
            r == (Vec3 { x, y, z }),
    {
        Vec3 { x, y, z }
    }

    /// The zero vector.
    pub fn zero() -> (r: Vec3)
        ensures
            r == Vec3::spec_zero(),
    {
        Vec3 { x: BITS_ZERO, y: BITS_ZERO, z: BITS_ZERO }
    }

    pub open spec fn spec_zero() -> Vec3 {
        Vec3 { x: BITS_ZERO, y: BITS_ZERO, z: BITS_ZERO }
    }

    /// The vector (1, 1, 1).
    pub fn ones() -> (r: Vec3)
        ensures
            r == Vec3::spec_ones(),
    {
        Vec3 { x: BITS_ONE, y: BITS_ONE, z: BITS_ONE }
    }

    pub open spec fn spec_ones() -> Vec3 {
        Vec3 { x: BITS_ONE, y: BITS_ONE, z: BITS_ONE }
    }

    /// The unit vector along +X.
    pub fn axis_x() -> (r: Vec3)
        ensures
            r == (Vec3 { x: BITS_ONE, y: BITS_ZERO, z: BITS_ZERO }),
    {
        Vec3 { x: BITS_ONE, y: BITS_ZERO, z: BITS_ZERO }
    }

    /// The unit vector along +Y.
    pub fn axis_y() -> (r: Vec3)
        ensures
            r == (Vec3 { x: BITS_ZERO, y: BITS_ONE, z: BITS_ZERO }),
    {
        Vec3 { x: BITS_ZERO, y: BITS_ONE, z: BITS_ZERO }
    }

    /// The unit vector along +Z.
    pub fn axis_z() -> (r: Vec3)
        ensures
            r == (Vec3 { x: BITS_ZERO, y: BITS_ZERO, z: BITS_ONE }),
    {
        Vec3 { x: BITS_ZERO, y: BITS_ZERO, z: BITS_ONE }
    }
}

/// An orientation quaternion; each component is an IEEE-754 bit pattern.
#[derive(Clone, Copy, Debug, PartialEq, Eq, Structural)]
pub struct Quat {
    pub x: u32,
    pub y: u32,
    pub z: u32,
    pub w: u32,
}

impl Quat {
    pub fn new(x: u32, y: u32, z: u32, w: u32) -> (r: Quat)
        ensures
            r == (Quat { x, y, z, w }),
    {
        Quat { x, y, z, w }
    }

    /// The identity rotation (0, 0, 0, 1).
    pub fn identity() -> (r: Quat)
        ensures
            r == Quat::spec_identity(),
    {
        Quat { x: BITS_ZERO, y: BITS_ZERO, z: BITS_ZERO, w: BITS_ONE }
    }

    pub open spec fn spec_identity() -> Quat {
        Quat { x: BITS_ZERO, y: BITS_ZERO, z: BITS_ZERO, w: BITS_ONE }
    }
}

} // verus!
