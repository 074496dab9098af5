//! Floating-point values as IEEE-754 bit patterns.
//!
//! The library never computes with floating-point numbers. Where a value of
//! the scene or of the camera is one, it is held as the bit pattern that
//! `to_bits` gives, and moved around unchanged.

use vstd::prelude::*;

verus! {

/// Single precision `0.0`.
pub const F32_ZERO: u32 = 0x0000_0000;

/// Single precision `0.05`.
pub const F32_0_05: u32 = 0x3D4C_CCCD;

/// Single precision `0.1`.
pub const F32_0_1: u32 = 0x3DCC_CCCD;

/// Single precision `0.5`.
pub const F32_0_5: u32 = 0x3F00_0000;

/// Single precision `0.8`.
pub const F32_0_8: u32 = 0x3F4C_CCCD;

/// Single precision `1.0`.
pub const F32_ONE: u32 = 0x3F80_0000;

/// Single precision `-1.0`.
pub const F32_NEG_ONE: u32 = 0xBF80_0000;

/// Single precision `2.0`.
pub const F32_TWO: u32 = 0x4000_0000;

/// Single precision `3.0`.
pub const F32_THREE: u32 = 0x4040_0000;

/// Single precision `60.0`.
pub const F32_SIXTY: u32 = 0x4270_0000;

/// Single precision `100.0`.
pub const F32_HUNDRED: u32 = 0x42C8_0000;

/// Double precision `0.1`.
pub const F64_0_1: u64 = 0x3FB9_9999_9999_999A;

/// Double precision `0.2`.
pub const F64_0_2: u64 = 0x3FC9_9999_9999_999A;

/// Double precision `0.3`.
pub const F64_0_3: u64 = 0x3FD3_3333_3333_3333;

/// Double precision `1.0`.
pub const F64_ONE: u64 = 0x3FF0_0000_0000_0000;

/// Double precision `-0.0`: only the sign bit is set.
pub const F64_SIGN: u64 = 0x8000_0000_0000_0000;

/// Two single-precision numbers.
#[derive(Clone, Copy, Debug, PartialEq, Eq, Structural)]
pub struct Vec2Bits {
    pub x: u32,
    pub y: u32,
}

/// Three single-precision numbers.
#[derive(Clone, Copy, Debug, PartialEq, Eq, Structural)]
pub struct Vec3Bits {
    pub x: u32,
    pub y: u32,
    pub z: u32,
}

/// Whether a double-precision number compares equal to zero: `0.0` and `-0.0`
/// do, every other number and every NaN does not.
pub open spec fn f64_is_zero(bits: u64) -> bool {
    bits == 0 || bits == F64_SIGN
}

/// Whether a double-precision number compares equal to zero.
pub fn is_zero_f64(bits: u64) -> (zero: bool)
    ensures
        zero == f64_is_zero(bits),
{
    bits == 0 || bits == F64_SIGN
}

} // verus!
