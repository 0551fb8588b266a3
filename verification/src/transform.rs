//! The transform component: position, orientation and scale of an entity.

use vstd::prelude::*;
use crate::math::{Quat, Vec3};

verus! {

#[derive(Clone, Copy, Debug, PartialEq, Eq, Structural)]
pub struct Transform {
    pub position: Vec3,
    pub rotation: Quat,
    pub scale: Vec3,
}

impl Transform {
    pub fn new(position: Vec3, rotation: Quat, scale: Vec3) -> (r: Transform)
        ensures
            r == (Transform { position, rotation, scale }),
    {
        Transform { position, rotation, scale }
    }
}

impl Default for Transform {
    /// Origin position, identity rotation, unit scale.
    fn default() -> (r: Transform)
        ensures
            r == Transform::spec_default(),
    {
        Transform {
            position: Vec3::zero(),
            rotation: Quat::identity(),
            scale: Vec3::ones(),
        }
    }
}

impl Transform {
    pub open spec fn spec_default() -> Transform {
        Transform {
            position: Vec3::spec_zero(),
            rotation: Quat::spec_identity(),
            scale: Vec3::spec_ones(),
        }
    }
}

} // verus!
