//! The Giant archetype: a heavy ground-pound leaper that re-applies its
//! hop power every grounded tick and is pushed back by projectile hits.

use crate::combat::Enemy;
use crate::facing::{sign_of, Facing};
use crate::hop::Hop;
use crate::rng::rand_range;
use crate::units::Vec2i;
use vstd::prelude::*;

verus! {

/// Health a giant spawns with.
pub const GIANT_HEALTH: i32 = 20;

/// Everything a freshly constructed giant carries.
#[derive(PartialEq, Eq, Structural, Clone, Copy, Debug)]
pub struct GiantBundle {
    pub enemy: Enemy,
    pub hop: Hop,
    pub pos: Vec2i,
}

/// Constructs a giant at a map edge: facing is a fair coin and the hop
/// power vector is drawn per spawn, with the horizontal component
/// mirrored by facing and a heavy fixed-range vertical component.
pub fn spawn_giant() -> (b: GiantBundle)
    ensures
        b.enemy.health == GIANT_HEALTH,
        !b.hop.grounded,
        b.pos.x == -16000 * sign_of(b.enemy.facing),
        b.pos.y == 6000,
        50500 <= b.hop.power.y < 55000,
        b.enemy.facing == Facing::Left ==> 2000 <= b.hop.power.x < 3500,
        b.enemy.facing == Facing::Right ==> -3500 < b.hop.power.x <= -2000,
{
    let facing = if rand_range(0, 2) == 0 {
        Facing::Left
    } else {
        Facing::Right
    };
    let mul = facing.sign();
    let px = (rand_range(2000, 3500) as i64) * mul;
    let py = rand_range(50500, 55000) as i64;
    let sx = (-16000i64) * mul;
    GiantBundle {
        enemy: Enemy { health: GIANT_HEALTH, facing },
        hop: Hop { grounded: false, power: Vec2i { x: px, y: py } },
        pos: Vec2i { x: sx, y: 6000 },
    }
}

/// The knockback force a projectile hit applies to a giant: horizontal,
/// opposite to the giant's facing, and proportional to the projectile's
/// size.
pub fn recoil_force(facing: Facing, size: i32) -> (f: Vec2i)
    requires
        size >= 0,
    ensures
        f.x == -7500 * sign_of(facing) * size,
        f.y == 0,
{
    let mul = facing.sign();
    let fx = (-7500i64) * mul * (size as i64);
    Vec2i { x: fx, y: 0 }
}

} // verus!
