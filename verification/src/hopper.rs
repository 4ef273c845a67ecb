//! The Hopper archetype: a light grounded leaper with a ranged attack.

use crate::combat::Enemy;
use crate::enemy_projectile::ProjectileSpawn;
use crate::facing::{sign_of, Facing};
use crate::hop::Hop;
use crate::rng::rand_range;
use crate::units::Vec2i;
use vstd::prelude::*;

verus! {

/// Health a hopper spawns with.
pub const HOPPER_HEALTH: i32 = 1;

/// Horizontal distance from the defender (fixed-point) within which a
/// hopper may fire.
pub const HOPPER_ATTACK_RANGE: i64 = 15000;

/// Probability-draw threshold for the per-tick ranged attack: a draw at
/// or above it (one chance in a thousand) fires.
pub const SHOT_THRESHOLD: u64 = 999000;

/// Everything a freshly constructed hopper carries: its actor data, its
/// hop state, and its spawn position.
#[derive(PartialEq, Eq, Structural, Clone, Copy, Debug)]
pub struct HopperBundle {
    pub enemy: Enemy,
    pub hop: Hop,
    pub pos: Vec2i,
}

/// Constructs a hopper at a map edge: facing is a fair coin, the hop
/// power vector is drawn per spawn (horizontal component mirrored by
/// facing), and the actor starts airborne at a randomized height on the
/// side it walks in from.
pub fn spawn_hopper() -> (b: HopperBundle)
    ensures
        b.enemy.health == HOPPER_HEALTH,
        !b.hop.grounded,
        b.pos.x == -16000 * sign_of(b.enemy.facing),
        5000 <= b.pos.y < 10000,
        15000 <= b.hop.power.y < 15010,
        b.enemy.facing == Facing::Left ==> 1000 <= b.hop.power.x < 2000,
        b.enemy.facing == Facing::Right ==> -2000 < b.hop.power.x <= -1000,
{
    let facing = if rand_range(0, 2) == 0 {
        Facing::Left
    } else {
        Facing::Right
    };
    let mul = facing.sign();
    let px = (rand_range(1000, 2000) as i64) * mul;
    let py = rand_range(15000, 15010) as i64;
    let height = rand_range(5000, 10000) as i64;
    let sx = (-16000i64) * mul;
    HopperBundle {
        enemy: Enemy { health: HOPPER_HEALTH, facing },
        hop: Hop { grounded: false, power: Vec2i { x: px, y: py } },
        pos: Vec2i { x: sx, y: height },
    }
}

/// Whether a ranged-attack draw fires from horizontal position `x`:
/// the rare draw must hit and the hopper must be within attack range of
/// the defender's side.
pub open spec fn shot_fires(r: int, x: int) -> bool {
    r >= 999000 && -15000 < x < 15000
}

/// The ranged-attack decision for one tick, given this tick's
/// probability draw.
pub fn shoot_decision(r: u64, x: i64) -> (b: bool)
    ensures
        b == shot_fires(r as int, x as int),
{
    r >= SHOT_THRESHOLD && x > -HOPPER_ATTACK_RANGE && x < HOPPER_ATTACK_RANGE
}

/// One tick of the hopper's ranged attack: with small fixed probability,
/// and only within a bounded horizontal range of the defender, requests
/// an enemy projectile at the hopper's current position.
pub fn try_shoot(pos: Vec2i) -> (p: Option<ProjectileSpawn>)
    ensures
        p matches Some(ps) ==> ps.pos == pos,
        p is Some ==> -15000 < pos.x < 15000,
        !(-15000 < pos.x < 15000) ==> p is None,
{
    let r = rand_range(0, 1000000);
    if shoot_decision(r, pos.x) {
        Some(ProjectileSpawn { pos })
    } else {
        None
    }
}

} // verus!
