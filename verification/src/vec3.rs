//! Fixed-point 3-vectors: the world-space geometry type.

use vstd::prelude::*;

use crate::fixed::{fx_add, fx_floor, fx_mul, fx_sub, inv_sqrt_spec, Fixed, ONE_RAW};
use crate::vec3i::Vec3i;

verus! {

/// A 3-dimensional vector over `Fixed`.
#[derive(Clone, Copy, Debug, PartialEq, Eq, Structural)]
pub struct Vec3 {
    pub x: Fixed,
    pub y: Fixed,
    pub z: Fixed,
}

/// Build a `Vec3` from raw registers known to lie in the `i32` range.
pub open spec fn v3_raw(x: int, y: int, z: int) -> Vec3 {
    Vec3 { x: Fixed { raw: x as i32 }, y: Fixed { raw: y as i32 }, z: Fixed { raw: z as i32 } }
}

/// Component-wise wrapping sum.
pub open spec fn v3_add(a: Vec3, b: Vec3) -> Vec3 {
    v3_raw(
        fx_add(a.x.raw as int, b.x.raw as int),
        fx_add(a.y.raw as int, b.y.raw as int),
        fx_add(a.z.raw as int, b.z.raw as int),
    )
}

/// Component-wise wrapping difference.
pub open spec fn v3_sub(a: Vec3, b: Vec3) -> Vec3 {
    v3_raw(
        fx_sub(a.x.raw as int, b.x.raw as int),
        fx_sub(a.y.raw as int, b.y.raw as int),
        fx_sub(a.z.raw as int, b.z.raw as int),
    )
}

/// Component-wise wrapping negation.
pub open spec fn v3_neg(a: Vec3) -> Vec3 {
    v3_sub(v3_raw(0, 0, 0), a)
}

/// Component-wise product with a scalar.
pub open spec fn v3_scale(a: Vec3, f: int) -> Vec3 {
    v3_raw(fx_mul(a.x.raw as int, f), fx_mul(a.y.raw as int, f), fx_mul(a.z.raw as int, f))
}

/// The fixed-point dot product, summed left to right.
pub open spec fn v3_dot(a: Vec3, b: Vec3) -> int {
    fx_add(
        fx_add(fx_mul(a.x.raw as int, b.x.raw as int), fx_mul(a.y.raw as int, b.y.raw as int)),
        fx_mul(a.z.raw as int, b.z.raw as int),
    )
}

/// The fixed-point cross product by the standard formula.
pub open spec fn v3_cross(a: Vec3, b: Vec3) -> Vec3 {
    v3_raw(
        fx_sub(fx_mul(a.y.raw as int, b.z.raw as int), fx_mul(a.z.raw as int, b.y.raw as int)),
        fx_sub(fx_mul(a.z.raw as int, b.x.raw as int), fx_mul(a.x.raw as int, b.z.raw as int)),
        fx_sub(fx_mul(a.x.raw as int, b.y.raw as int), fx_mul(a.y.raw as int, b.x.raw as int)),
    )
}

/// Squared Euclidean length in fixed point.
pub open spec fn v3_mag2(a: Vec3) -> int {
    v3_dot(a, a)
}

/// `v` scaled by the approximate inverse square root of its squared length.
pub open spec fn v3_normalized(a: Vec3) -> Vec3 {
    v3_scale(a, inv_sqrt_spec((v3_mag2(a) as i32)))
}

/// Component-wise floor, giving the voxel that contains the point.
pub open spec fn v3_floor(a: Vec3) -> Vec3i {
    Vec3i {
        x: fx_floor(a.x.raw as int) as i32,
        y: fx_floor(a.y.raw as int) as i32,
        z: fx_floor(a.z.raw as int) as i32,
    }
}

impl Vec3 {
    pub fn new(x: Fixed, y: Fixed, z: Fixed) -> (r: Vec3)
        ensures
            r == (Vec3 { x, y, z }),
    {
        Vec3 { x, y, z }
    }

    /// The zero vector.
    pub fn zero() -> (r: Vec3)
        ensures
            r == v3_raw(0, 0, 0),
    {
        Vec3 { x: Fixed { raw: 0 }, y: Fixed { raw: 0 }, z: Fixed { raw: 0 } }
    }

    /// The unit vector (0, 1, 0).
    pub fn up() -> (r: Vec3)
        ensures
            r == v3_raw(0, ONE_RAW as int, 0),
    {
        Vec3 { x: Fixed { raw: 0 }, y: Fixed { raw: ONE_RAW }, z: Fixed { raw: 0 } }
    }

    /// The unit vector (1, 0, 0).
    pub fn right() -> (r: Vec3)
        ensures
            r == v3_raw(ONE_RAW as int, 0, 0),
    {
        Vec3 { x: Fixed { raw: ONE_RAW }, y: Fixed { raw: 0 }, z: Fixed { raw: 0 } }
    }

    /// The unit vector (0, 0, 1).
    pub fn forward() -> (r: Vec3)
        ensures
            r == v3_raw(0, 0, ONE_RAW as int),
    {
        Vec3 { x: Fixed { raw: 0 }, y: Fixed { raw: 0 }, z: Fixed { raw: ONE_RAW } }
    }

    /// Component-wise wrapping sum.
    pub fn add(self, rhs: Vec3) -> (r: Vec3)
        ensures
            r == v3_add(self, rhs),
    {
        Vec3 { x: self.x.add(rhs.x), y: self.y.add(rhs.y), z: self.z.add(rhs.z) }
    }

    /// Component-wise wrapping difference.
    pub fn sub(self, rhs: Vec3) -> (r: Vec3)
        ensures
            r == v3_sub(self, rhs),
    {
        Vec3 { x: self.x.sub(rhs.x), y: self.y.sub(rhs.y), z: self.z.sub(rhs.z) }
    }

    /// Component-wise wrapping negation.
    pub fn neg(self) -> (r: Vec3)
        ensures
            r == v3_neg(self),
    {
        Vec3 { x: self.x.neg(), y: self.y.neg(), z: self.z.neg() }
    }

    /// Component-wise product with a scalar.
    pub fn scale(self, f: Fixed) -> (r: Vec3)
        ensures
            r == v3_scale(self, f.raw as int),
    {
        Vec3 { x: self.x.mul(f), y: self.y.mul(f), z: self.z.mul(f) }
    }

    /// Dot product, summed left to right.
    pub fn dot(self, rhs: Vec3) -> (r: Fixed)
        ensures
            r.raw == v3_dot(self, rhs),
    {
        self.x.mul(rhs.x).add(self.y.mul(rhs.y)).add(self.z.mul(rhs.z))
    }

    /// Cross product by the standard formula.
    pub fn cross(self, rhs: Vec3) -> (r: Vec3)
        ensures
            r == v3_cross(self, rhs),
    {
        Vec3 {
            x: self.y.mul(rhs.z).sub(self.z.mul(rhs.y)),
            y: self.z.mul(rhs.x).sub(self.x.mul(rhs.z)),
            z: self.x.mul(rhs.y).sub(self.y.mul(rhs.x)),
        }
    }

    /// Squared Euclidean length.
    pub fn magnitude_squared(self) -> (r: Fixed)
        ensures
            r.raw == v3_mag2(self),
    {
        self.dot(self)
    }

    /// Scale by the approximate inverse square root of the squared length:
    /// the result of a non-zero vector has length close to 1.
    pub fn normalized(self) -> (r: Vec3)
        ensures
            r == v3_normalized(self),
    {
        self.scale(self.magnitude_squared().inv_sqrt())
    }

    /// The voxel containing this point: component-wise floor.
    pub fn floor(self) -> (r: Vec3i)
        ensures
            r == v3_floor(self),
            -0x1_0000 <= r.x <= 0xffff,
            -0x1_0000 <= r.y <= 0xffff,
            -0x1_0000 <= r.z <= 0xffff,
    {
        Vec3i { x: self.x.floor(), y: self.y.floor(), z: self.z.floor() }
    }
}

} // verus!
