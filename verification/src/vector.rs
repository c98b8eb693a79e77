//! Three-component vectors as they travel between the host and the GPU.

use vstd::prelude::*;

verus! {

/// A vector of three single-precision numbers, each kept as its IEEE 754 bit
/// pattern, so that a value handed through arrives bit for bit as it was given.
#[derive(Clone, Copy, PartialEq, Eq, Structural, Debug, Hash)]
pub struct Vec3 {
    /// Bit pattern of the first component.
    pub x: u32,
    /// Bit pattern of the second component.
    pub y: u32,
    /// Bit pattern of the third component.
    pub z: u32,
}

impl Vec3 {
    /// The vector whose components have the given bit patterns.
    pub fn from_bits(x: u32, y: u32, z: u32) -> (v: Vec3)
        ensures
            v == (Vec3 { x, y, z }),
    {
        Vec3 { x, y, z }
    }

    /// The bit patterns of the three components, in order.
    pub fn to_bits(&self) -> (bits: [u32; 3])
        ensures
            bits@ == seq![self.x, self.y, self.z],
    {
        [self.x, self.y, self.z]
    }
}

} // verus!
