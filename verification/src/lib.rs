//! Two layouts for a 3D particle simulation — array-of-structures and
//! structure-of-arrays — with the same three operations over each: position
//! integration, gravity application, and a kinetic-energy reduction.
//!
//! All scalars are IEEE-754 binary32 values carried as `u32` bit patterns
//! (see `fbits`), so both layouts are proved to compute the same
//! bit-identical results, in the same accumulation order.

pub mod aos;
pub mod fbits;
pub mod laws;
pub mod model;
pub mod soa;

use vstd::prelude::*;

use crate::fbits::{
    add_bits, add_keeps, is_finite_bits, is_pos_zero, mul_bits, sign_bit, zero_of_sign,
};

verus! {

/// A 3-component vector of binary32 values, each carried as its bit pattern.
/// Immutable value semantics: `add` and `scale` return new values.
#[derive(Clone, Copy, Debug, PartialEq, Eq, Structural)]
pub struct Vec3 {
    pub x: u32,
    pub y: u32,
    pub z: u32,
}

/// Component-wise binary32 sum.
pub open spec fn add3(a: Vec3, b: Vec3) -> Vec3 {
    Vec3 { x: add_bits(a.x, b.x), y: add_bits(a.y, b.y), z: add_bits(a.z, b.z) }
}

/// Component-wise binary32 product with the scalar `k`.
pub open spec fn scale3(a: Vec3, k: u32) -> Vec3 {
    Vec3 { x: mul_bits(a.x, k), y: mul_bits(a.y, k), z: mul_bits(a.z, k) }
}

/// The vector of three positive zeros.
pub open spec fn zero3() -> Vec3 {
    Vec3 { x: 0u32, y: 0u32, z: 0u32 }
}

impl Vec3 {
    /// Pure construction; any bit patterns, NaN and infinity included.
    pub fn new(x: u32, y: u32, z: u32) -> (v: Vec3)
        ensures
            v == (Vec3 { x, y, z }),
    {
        Vec3 { x, y, z }
    }

    /// Component-wise sum. A zero component of `other` leaves the matching
    /// component of `self` unchanged (see `add_keeps`).
    pub fn add(&self, other: &Vec3) -> (r: Vec3)
        ensures
            r == add3(*self, *other),
            add_keeps(self.x, other.x) ==> r.x == self.x,
            add_keeps(self.y, other.y) ==> r.y == self.y,
            add_keeps(self.z, other.z) ==> r.z == self.z,
    {
        Vec3 {
            x: crate::fbits::f32_add(self.x, other.x),
            y: crate::fbits::f32_add(self.y, other.y),
            z: crate::fbits::f32_add(self.z, other.z),
        }
    }

    /// Component-wise product with `factor`. Scaling a positive-zero
    /// component by a finite factor, or a finite component by positive
    /// zero, gives a zero of the expected sign.
    pub fn scale(&self, factor: u32) -> (r: Vec3)
        ensures
            r == scale3(*self, factor),
            is_pos_zero(self.x) && is_finite_bits(factor) ==> r.x == zero_of_sign(
                sign_bit(factor),
            ),
            is_pos_zero(self.y) && is_finite_bits(factor) ==> r.y == zero_of_sign(
                sign_bit(factor),
            ),
            is_pos_zero(self.z) && is_finite_bits(factor) ==> r.z == zero_of_sign(
                sign_bit(factor),
            ),
            is_pos_zero(factor) && is_finite_bits(self.x) ==> r.x == zero_of_sign(
                sign_bit(self.x),
            ),
            is_pos_zero(factor) && is_finite_bits(self.y) ==> r.y == zero_of_sign(
                sign_bit(self.y),
            ),
            is_pos_zero(factor) && is_finite_bits(self.z) ==> r.z == zero_of_sign(
                sign_bit(self.z),
            ),
    {
        Vec3 {
            x: crate::fbits::f32_mul(self.x, factor),
            y: crate::fbits::f32_mul(self.y, factor),
            z: crate::fbits::f32_mul(self.z, factor),
        }
    }
}

} // verus!
