//! Three-component coordinates, carried as opaque bit patterns.

use vstd::prelude::*;

verus! {

/// A point or direction in scene space.
///
/// Each component holds the IEEE-754 single-precision bit pattern of the
/// coordinate. The editor never does arithmetic on coordinates: it stores
/// them, hands them back, and compares them bit for bit.
#[derive(Clone, Copy, Debug, PartialEq, Eq, Structural)]
pub struct Vec3 {
    pub x: u32,
    pub y: u32,
    pub z: u32,
}

impl Vec3 {
    /// The origin: every component is positive zero.
    pub fn zero() -> (v: Vec3)
        ensures
            v == (Vec3 { x: 0, y: 0, z: 0 }),
    {
        Vec3 { x: 0, y: 0, z: 0 }
    }

    /// Builds coordinates from three bit patterns.
    pub fn from_bits(x: u32, y: u32, z: u32) -> (v: Vec3)
        ensures
            v == (Vec3 { x, y, z }),
    {
        Vec3 { x, y, z }
    }
}

} // verus!
