//! World-space positions and the types shared by every part of the world model.

use vstd::prelude::*;

pub mod block;
pub mod chunk;

verus! {

/// Value of the externally advanced world clock.
pub type WorldTimestamp = u64;

/// Why an operation on the world model was refused.
#[derive(Clone, Copy, PartialEq, Eq, Structural, Debug)]
pub enum WorldError {
    /// Every representable block kind identifier has already been issued.
    RegistrationExhausted,
    /// A voxel offset or a block kind identifier lies outside the valid domain.
    IndexOutOfRange,
}

/// The spatial location of a single voxel, in absolute world space.
#[derive(PartialEq, Eq, Structural, Hash, Debug)]
pub struct Coordinates {
    pub x: i64,
    pub y: i64,
    pub z: i64,
}

impl Coordinates {
    /// Builds the position `(x, y, z)`.
    pub fn new(x: i64, y: i64, z: i64) -> (c: Self)
        ensures
            c == (Coordinates { x, y, z }),
    {
        Coordinates { x, y, z }
    }
}

impl Clone for Coordinates {
    fn clone(&self) -> (c: Self)
        ensures
            c == *self,
    {
        Coordinates { x: self.x, y: self.y, z: self.z }
    }
}

} // verus!
