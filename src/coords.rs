//! Vendor points and the host's coordinate convention.
//!
//! A sensor reports `(x, y, z)`; the host wants `(-x, z, y)`. Coordinates are
//! `f32` bit patterns, and negating an `f32` flips its sign bit.
use crate::skeleton::Joint;
use vstd::prelude::*;

verus! {

/// The sign bit of an `f32` bit pattern.
pub const SIGN_BIT: u32 = 0x8000_0000;

/// The host position of the vendor point `(x, y, z)`.
pub open spec fn to_host(x: u32, y: u32, z: u32) -> Joint {
    Joint { x: x ^ SIGN_BIT, y: z, z: y }
}

/// Maps a vendor point into host space.
pub fn host_joint(x: u32, y: u32, z: u32) -> (r: Joint)
    ensures
        r == to_host(x, y, z),
{
    Joint { x: x ^ SIGN_BIT, y: z, z: y }
}

/// A vendor point with a fourth, unused component.
#[derive(Clone, Copy, PartialEq, Eq, Structural, Debug)]
pub struct Vector4 {
    pub x: u32,
    pub y: u32,
    pub z: u32,
    pub w: u32,
}

impl Vector4 {
    pub open spec fn host(self) -> Joint {
        to_host(self.x, self.y, self.z)
    }
}

/// A vendor point.
#[derive(Clone, Copy, PartialEq, Eq, Structural, Debug)]
pub struct Vector3 {
    pub x: u32,
    pub y: u32,
    pub z: u32,
}

impl Vector3 {
    pub open spec fn host(self) -> Joint {
        to_host(self.x, self.y, self.z)
    }

    pub fn into_gmod(self) -> (r: Joint)
        ensures
            r == self.host(),
    {
        host_joint(self.x, self.y, self.z)
    }
}

} // verus!
