//! Three-component vectors of scalars. Components are binary64 bit patterns
//! (see `scalar`); the vector arithmetic itself — sums, norms, products — is
//! rounded floating-point work and lives outside the verified library. Here a
//! vector is exact data: positions and momenta that the transport logic
//! stores, moves and compares.

use vstd::prelude::*;

verus! {

/// An immutable 3-component vector; every operation builds a new value.
#[derive(Clone, Copy, PartialEq, Eq, Structural, Debug)]
pub struct Vec3Bits {
    pub x: u64,
    pub y: u64,
    pub z: u64,
}

impl Vec3Bits {
    /// Builds a vector from its three components.
    pub fn new(x: u64, y: u64, z: u64) -> (v: Vec3Bits)
        ensures
            v == (Vec3Bits { x, y, z }),
    {
        Vec3Bits { x, y, z }
    }
}

} // verus!
