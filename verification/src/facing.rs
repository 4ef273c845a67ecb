//! The binary left/right orientation carried by every actor.

use vstd::prelude::*;

verus! {

/// A left/right orientation, convertible to a signed multiplier for
/// velocity and spawn-position mirroring, and to a sprite-flip flag.
///
/// Actors tagged `Left` enter from the right edge and travel in the
/// positive direction, so `Left` maps to the multiplier `1`.
#[derive(PartialEq, Eq, Structural, Clone, Copy, Debug)]
pub enum Facing {
    Left,
    Right,
}

/// The signed multiplier that mirrors direction-dependent quantities.
pub open spec fn sign_of(f: Facing) -> int {
    if f == Facing::Left {
        1
    } else {
        -1
    }
}

impl Facing {
    /// The signed multiplier used for direction-dependent math.
    pub fn sign(self) -> (s: i64)
        ensures
            s == sign_of(self),
    {
        if self == Facing::Left {
            1
        } else {
            -1
        }
    }

    /// Whether a sprite authored facing left must be drawn flipped.
    pub fn flipped(self) -> (b: bool)
        ensures
            b == (self != Facing::Left),
    {
        self != Facing::Left
    }
}

} // verus!
