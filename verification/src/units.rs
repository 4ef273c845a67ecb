//! Fixed-point conventions shared by the whole engine.
//!
//! Positions, velocities, forces and collider extents are measured in
//! thousandths of a world unit (`MILLI` per unit); durations are measured in
//! milliseconds; probabilities are fractions of `PROB_ONE`.

use vstd::prelude::*;

verus! {

/// Fixed-point sub-units per world unit.
pub const MILLI: i64 = 1000;

/// Fixed-point representation of probability 1.0.
pub const PROB_ONE: u32 = 1000000;

/// A two-dimensional vector in fixed-point world coordinates
/// (thousandths of a unit), used for positions, velocities, impulses
/// and forces.
#[derive(PartialEq, Eq, Structural, Clone, Copy, Debug)]
pub struct Vec2i {
    pub x: i64,
    pub y: i64,
}

impl Vec2i {
    /// The zero vector.
    pub fn zero() -> (v: Vec2i)
        ensures
            v.x == 0 && v.y == 0,
    {
        Vec2i { x: 0, y: 0 }
    }

    pub fn new(x: i64, y: i64) -> (v: Vec2i)
        ensures
            v.x == x && v.y == y,
    {
        Vec2i { x, y }
    }
}

} // verus!
