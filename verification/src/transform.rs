//! Positions and rotations as the renderer receives them.
//!
//! Every component is kept as the IEEE 754 bit pattern of a single-precision
//! number. The bookkeeping never computes with a component; it stores them and
//! hands them on, so the bit pattern is all it needs.

use vstd::prelude::*;

verus! {

/// Bit pattern of the single-precision number `0.0`.
pub const ZERO_BITS: u32 = 0;

/// Bit pattern of the single-precision number `1.0`.
pub const ONE_BITS: u32 = 0x3F80_0000;

/// A point in world space.
#[derive(Clone, Copy, Debug, PartialEq, Eq, Hash, Structural)]
pub struct Position {
    pub x: u32,
    pub y: u32,
    pub z: u32,
}

/// A rotation quaternion, `w` being the scalar part.
#[derive(Clone, Copy, Debug, PartialEq, Eq, Hash, Structural)]
pub struct Rotation {
    pub x: u32,
    pub y: u32,
    pub z: u32,
    pub w: u32,
}

/// Where an instance stands and how it is turned.
#[derive(Clone, Copy, Debug, PartialEq, Eq, Hash, Structural)]
pub struct InstanceTransform {
    pub position: Position,
    pub rotation: Rotation,
}

impl Position {
    /// The point whose coordinates are the three entries of `bits`, in order.
    pub open spec fn spec_from_array(bits: [u32; 3]) -> Position {
        Position { x: bits@[0], y: bits@[1], z: bits@[2] }
    }

    /// Reads a point from an array of coordinates.
    pub fn from_array(bits: [u32; 3]) -> (p: Position)
        ensures
            p == Position::spec_from_array(bits),
    {
        Position { x: bits[0], y: bits[1], z: bits[2] }
    }
}

impl Rotation {
    /// The rotation that turns nothing: `(0, 0, 0, 1)`.
    pub open spec fn spec_identity() -> Rotation {
        Rotation { x: ZERO_BITS, y: ZERO_BITS, z: ZERO_BITS, w: ONE_BITS }
    }

    /// The rotation that turns nothing.
    pub fn identity() -> (r: Rotation)
        ensures
            r == Rotation::spec_identity(),
    {
        Rotation { x: ZERO_BITS, y: ZERO_BITS, z: ZERO_BITS, w: ONE_BITS }
    }
}

} // verus!
