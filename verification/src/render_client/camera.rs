//! The camera's state. The matrices are floating-point work and are built by
//! the device layer from this state.

use crate::utils::float_bits::Vec3Bits;
use crate::utils::float_bits::{F32_0_1, F32_HUNDRED, F32_NEG_ONE, F32_ONE, F32_SIXTY, F32_TWO, F32_ZERO};
use vstd::prelude::*;

verus! {

/// An aspect ratio, kept exact as the pair it is the quotient of.
#[derive(Clone, Copy, Debug, PartialEq, Eq, Structural)]
pub struct AspectRatio {
    pub width: u32,
    pub height: u32,
}

/// Eye position, view direction and up vector, aspect ratio, field of view in
/// degrees, near and far plane.
#[derive(Clone, Copy, Debug, PartialEq, Eq, Structural)]
pub struct Camera {
    pub eye: Vec3Bits,
    pub dir: Vec3Bits,
    pub up: Vec3Bits,
    pub aspect: AspectRatio,
    pub fov: u32,
    pub z_near: u32,
    pub z_far: u32,
}

impl Camera {
    /// The camera at (0, 1, 2) looking down the negative z axis, y up, with a
    /// square image, 60 degrees of view, and planes at 0.1 and 100.
    pub open spec fn spec_default() -> Camera {
        Camera {
            eye: Vec3Bits { x: F32_ZERO, y: F32_ONE, z: F32_TWO },
            dir: Vec3Bits { x: F32_ZERO, y: F32_ZERO, z: F32_NEG_ONE },
            up: Vec3Bits { x: F32_ZERO, y: F32_ONE, z: F32_ZERO },
            aspect: AspectRatio { width: 1, height: 1 },
            fov: F32_SIXTY,
            z_near: F32_0_1,
            z_far: F32_HUNDRED,
        }
    }
}

impl Default for Camera {
    fn default() -> (camera: Camera)
        ensures
            camera == Camera::spec_default(),
    {
        Camera {
            eye: Vec3Bits { x: F32_ZERO, y: F32_ONE, z: F32_TWO },
            dir: Vec3Bits { x: F32_ZERO, y: F32_ZERO, z: F32_NEG_ONE },
            up: Vec3Bits { x: F32_ZERO, y: F32_ONE, z: F32_ZERO },
            aspect: AspectRatio { width: 1, height: 1 },
            fov: F32_SIXTY,
            z_near: F32_0_1,
            z_far: F32_HUNDRED,
        }
    }
}

} // verus!
