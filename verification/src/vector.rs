//! Positions and directions in fixed point: each coordinate counts
//! millionths of a distance unit in a signed 64-bit integer.

use vstd::prelude::*;

verus! {

/// How many steps of a coordinate make one distance unit.
pub const UNIT: i64 = 1_000_000;

/// `n / d` rounded toward zero, for a positive `d`.
pub open spec fn trunc_div(n: int, d: int) -> int {
    if n >= 0 {
        n / d
    } else {
        -((-n) / d)
    }
}

/// `v`, or the nearest value that an `i64` holds.
pub open spec fn clamp_i64(v: int) -> int {
    if v < i64::MIN {
        i64::MIN as int
    } else if v > i64::MAX {
        i64::MAX as int
    } else {
        v
    }
}

/// The product of two fixed-point numbers, as a fixed-point number: rounded
/// toward zero, and held to the range of an `i64`.
pub open spec fn fixed_mul(a: int, b: int) -> int {
    clamp_i64(trunc_div(a * b, UNIT as int))
}

/// The product of two fixed-point coordinates.
pub fn mul_fixed(a: i64, b: i64) -> (product: i64)
    ensures
        product == fixed_mul(a as int, b as int),
{
    assert(-0x4000_0000_0000_0000_0000_0000_0000_0000 <= a * b
        <= 0x4000_0000_0000_0000_0000_0000_0000_0000) by (nonlinear_arith)
        requires
            -0x8000_0000_0000_0000 <= a <= 0x8000_0000_0000_0000,
            -0x8000_0000_0000_0000 <= b <= 0x8000_0000_0000_0000,
    ;
    let wide: i128 = (a as i128) * (b as i128);
    let quotient: i128 = wide / 1_000_000;
    if quotient > 0x7fff_ffff_ffff_ffff {
        i64::MAX
    } else if quotient < -0x8000_0000_0000_0000 {
        i64::MIN
    } else {
        quotient as i64
    }
}

/// A point or a direction in space.
#[derive(Clone, Copy, Debug, PartialEq, Eq, Structural)]
pub struct FixedVec3 {
    pub x: i64,
    pub y: i64,
    pub z: i64,
}

impl FixedVec3 {
    /// The vector with these coordinates, each in millionths of a unit.
    pub fn new(x: i64, y: i64, z: i64) -> (v: FixedVec3)
        ensures
            v == (FixedVec3 { x, y, z }),
    {
        FixedVec3 { x, y, z }
    }

    /// The vector whose three coordinates are all `value`.
    pub fn splat(value: i64) -> (v: FixedVec3)
        ensures
            v == (FixedVec3 { x: value, y: value, z: value }),
    {
        FixedVec3 { x: value, y: value, z: value }
    }

    /// The vector with these coordinates, each in whole units.
    pub fn from_units(x: i32, y: i32, z: i32) -> (v: FixedVec3)
        ensures
            v.x == x * UNIT,
            v.y == y * UNIT,
            v.z == z * UNIT,
    {
        FixedVec3 { x: (x as i64) * UNIT, y: (y as i64) * UNIT, z: (z as i64) * UNIT }
    }

    /// Coordinate by coordinate, the fixed-point product of two vectors.
    pub open spec fn scaled(self, by: FixedVec3) -> FixedVec3 {
        FixedVec3 {
            x: fixed_mul(self.x as int, by.x as int) as i64,
            y: fixed_mul(self.y as int, by.y as int) as i64,
            z: fixed_mul(self.z as int, by.z as int) as i64,
        }
    }

    /// Multiplies coordinate by coordinate.
    pub fn scale(self, by: FixedVec3) -> (v: FixedVec3)
        ensures
            v == self.scaled(by),
    {
        FixedVec3 {
            x: mul_fixed(self.x, by.x),
            y: mul_fixed(self.y, by.y),
            z: mul_fixed(self.z, by.z),
        }
    }
}

} // verus!
