//! Integer 3-vectors, used as voxel coordinates.

use vstd::prelude::*;

use crate::fixed::{fx_add, fx_sub};

verus! {

/// A 3-dimensional vector of signed integers.
#[derive(Clone, Copy, Debug, PartialEq, Eq, Structural)]
pub struct Vec3i {
    pub x: i32,
    pub y: i32,
    pub z: i32,
}

impl Vec3i {
    pub fn new(x: i32, y: i32, z: i32) -> (r: Vec3i)
        ensures
            r == (Vec3i { x, y, z }),
    {
        Vec3i { x, y, z }
    }

    /// The origin.
    pub fn zero() -> (r: Vec3i)
        ensures
            r == (Vec3i { x: 0, y: 0, z: 0 }),
    {
        Vec3i { x: 0, y: 0, z: 0 }
    }

    /// Squared Euclidean length.
    pub fn magnitude_squared(self) -> (r: i32)
        requires
            self.x * self.x + self.y * self.y + self.z * self.z <= i32::MAX,
            -0xb504 < self.x < 0xb504,
            -0xb504 < self.y < 0xb504,
            -0xb504 < self.z < 0xb504,
        ensures
            r == self.x * self.x + self.y * self.y + self.z * self.z,
    {
        proof {
            assert(self.x * self.x >= 0 && self.y * self.y >= 0 && self.z * self.z >= 0
                && self.x * self.x < 0x8000_0000 && self.y * self.y < 0x8000_0000 && self.z * self.z
                < 0x8000_0000) by (nonlinear_arith)
                requires
                    -0xb504 < self.x < 0xb504,
                    -0xb504 < self.y < 0xb504,
                    -0xb504 < self.z < 0xb504,
            ;
        }
        (self.x * self.x) + (self.y * self.y) + (self.z * self.z)
    }

    /// Component-wise wrapping addition.
    pub fn add(self, rhs: Vec3i) -> (r: Vec3i)
        ensures
            r.x == fx_add(self.x as int, rhs.x as int),
            r.y == fx_add(self.y as int, rhs.y as int),
            r.z == fx_add(self.z as int, rhs.z as int),
    {
        Vec3i {
            x: self.x.wrapping_add(rhs.x),
            y: self.y.wrapping_add(rhs.y),
            z: self.z.wrapping_add(rhs.z),
        }
    }

    /// Component-wise wrapping subtraction.
    pub fn sub(self, rhs: Vec3i) -> (r: Vec3i)
        ensures
            r.x == fx_sub(self.x as int, rhs.x as int),
            r.y == fx_sub(self.y as int, rhs.y as int),
            r.z == fx_sub(self.z as int, rhs.z as int),
    {
        Vec3i {
            x: self.x.wrapping_sub(rhs.x),
            y: self.y.wrapping_sub(rhs.y),
            z: self.z.wrapping_sub(rhs.z),
        }
    }

    /// Component-wise wrapping product with a scalar.
    pub fn mul(self, rhs: i32) -> (r: Vec3i)
        ensures
            r.x == vstd::wrapping::i32_specs::wrapping_mul(self.x, rhs),
            r.y == vstd::wrapping::i32_specs::wrapping_mul(self.y, rhs),
            r.z == vstd::wrapping::i32_specs::wrapping_mul(self.z, rhs),
    {
        Vec3i {
            x: self.x.wrapping_mul(rhs),
            y: self.y.wrapping_mul(rhs),
            z: self.z.wrapping_mul(rhs),
        }
    }

    /// Component-wise wrapping negation.
    pub fn neg(self) -> (r: Vec3i)
        ensures
            r.x == fx_sub(0, self.x as int),
            r.y == fx_sub(0, self.y as int),
            r.z == fx_sub(0, self.z as int),
    {
        Vec3i {
            x: 0i32.wrapping_sub(self.x),
            y: 0i32.wrapping_sub(self.y),
            z: 0i32.wrapping_sub(self.z),
        }
    }
}

} // verus!
