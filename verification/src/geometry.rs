//! Coordinates and vectors.
//!
//! The simulation works in floating point. This crate never computes with a
//! coordinate; it only carries it from a request into the component tables.
//! So every component is held as the bit pattern of the IEEE 754 number it
//! stands for: two values are the same exactly when every bit agrees.

use vstd::prelude::*;

verus! {

/// A point in the world. Each field is the bit pattern of a
/// double-precision number.
#[derive(Clone, Copy, Debug, PartialEq, Eq, Hash, Structural)]
pub struct Position {
    pub x: u64,
    pub y: u64,
    pub z: u64,
}

impl Position {
    /// The point with the given bit patterns as its coordinates.
    pub fn new(x: u64, y: u64, z: u64) -> (position: Self)
        ensures
            position == (Position { x, y, z }),
    {
        Position { x, y, z }
    }
}

/// A direction with a length. Each field is the bit pattern of a
/// single-precision number.
#[derive(Clone, Copy, Debug, PartialEq, Eq, Hash, Structural)]
pub struct Vec3 {
    pub x: u32,
    pub y: u32,
    pub z: u32,
}

impl Vec3 {
    /// The vector with the given bit patterns as its components.
    pub fn new(x: u32, y: u32, z: u32) -> (vector: Self)
        ensures
            vector == (Vec3 { x, y, z }),
    {
        Vec3 { x, y, z }
    }
}

} // verus!
