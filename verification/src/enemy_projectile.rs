//! Enemy-fired projectiles: the spawn intent a hopper emits and the
//! first-contact destruction rule. The projectile's launch direction
//! (a normalized vector toward the defender) is computed by the physics
//! collaborator from the spawn position.

use crate::units::Vec2i;
use vstd::prelude::*;

verus! {

/// An ephemeral request to construct an enemy projectile at a position;
/// consumed by the projectile constructor within the same behavior cycle.
#[derive(PartialEq, Eq, Structural, Clone, Copy, Debug)]
pub struct ProjectileSpawn {
    pub pos: Vec2i,
}

/// An enemy projectile is removed on its first contact with anything.
pub fn projectile_should_despawn(contact_count: usize) -> (b: bool)
    ensures
        b == (contact_count > 0),
{
    contact_count > 0
}

} // verus!
