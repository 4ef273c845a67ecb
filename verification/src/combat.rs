//! The collision-driven combat resolution pipeline.
//!
//! Each tick, every damageable actor's current collision set is read and
//! all projectile and explosion damage is accumulated onto its health;
//! only then does the death check run, so an actor killed twice over in
//! one tick still despawns once and spawns exactly one explosion, whose
//! power and radius are driven by `abs(health)` at the time of death.

use crate::facing::Facing;
use crate::timer::Countdown;
use vstd::prelude::*;

verus! {

/// How long an explosion stays in the simulation after it is spawned.
pub const EXPLOSION_LIFETIME_MS: u64 = 500;

/// Any simulated enemy instance: health and facing. Position and velocity
/// are owned by the physics collaborator.
#[derive(PartialEq, Eq, Structural, Clone, Copy, Debug)]
pub struct Enemy {
    pub health: i32,
    pub facing: Facing,
}

impl Default for Enemy {
    /// A fresh unspecialized enemy: one health point, facing left.
    fn default() -> (e: Enemy)
        ensures
            e.health == 1,
            e.facing == Facing::Left,
    {
        Enemy { health: 1, facing: Facing::Left }
    }
}

/// One damaging entity found in an actor's collision set this tick: a
/// player projectile deals its `size`, an explosion deals its `power`.
#[derive(PartialEq, Eq, Structural, Clone, Copy, Debug)]
pub enum Hit {
    Projectile { size: i32 },
    Explosion { power: i32 },
}

/// The damage one hit deals.
pub open spec fn damage_of(h: Hit) -> int {
    match h {
        Hit::Projectile { size } => size as int,
        Hit::Explosion { power } => power as int,
    }
}

/// Damage from every source is nonnegative: projectiles and explosions
/// never heal.
pub open spec fn all_damage_nonneg(hits: Seq<Hit>) -> bool {
    forall|i: int| 0 <= i < hits.len() ==> damage_of(#[trigger] hits[i]) >= 0
}

/// The accumulated damage of a collision set.
pub open spec fn total_damage(hits: Seq<Hit>) -> int
    decreases hits.len(),
{
    if hits.len() == 0 {
        0
    } else {
        total_damage(hits.drop_last()) + damage_of(hits.last())
    }
}

/// A prefix of a nonnegative collision set never deals more than the whole
/// set.
proof fn lemma_partial_damage_le(hits: Seq<Hit>, i: int)
    requires
        all_damage_nonneg(hits),
        0 <= i <= hits.len(),
    ensures
        total_damage(hits.take(i)) <= total_damage(hits),
    decreases hits.len() - i,
{
    if i < hits.len() {
        assert(hits.take(i + 1).drop_last() =~= hits.take(i));
        assert(hits.take(i + 1).last() == hits[i]);
        lemma_partial_damage_le(hits, i + 1);
    } else {
        assert(hits.take(i) =~= hits);
    }
}

/// Subtracts the damage of every colliding projectile and explosion from
/// the actor's health. Damage from simultaneous sources accumulates; the
/// projectile's own destruction rule runs independently in its owning
/// subsystem.
pub fn apply_hits(enemy: &mut Enemy, hits: &Vec<Hit>)
    requires
        all_damage_nonneg(hits@),
        old(enemy).health - total_damage(hits@) >= i32::MIN,
    ensures
        final(enemy).health == old(enemy).health - total_damage(hits@),
        final(enemy).facing == old(enemy).facing,
{
    let ghost h0 = enemy.health as int;
    let mut i: usize = 0;
    while i < hits.len()
        invariant
            0 <= i <= hits@.len(),
            all_damage_nonneg(hits@),
            h0 - total_damage(hits@) >= i32::MIN,
            h0 <= i32::MAX,
            enemy.health == h0 - total_damage(hits@.take(i as int)),
            enemy.facing == old(enemy).facing,
        decreases hits@.len() - i,
    {
        proof {
            lemma_partial_damage_le(hits@, i + 1);
            assert(hits@.take(i + 1).drop_last() =~= hits@.take(i as int));
            assert(hits@.take(i + 1).last() == hits@[i as int]);
        }
        let d = match hits[i] {
            Hit::Projectile { size } => size,
            Hit::Explosion { power } => power,
        };
        enemy.health = enemy.health - d;
        i = i + 1;
    }
    proof {
        assert(hits@.take(hits@.len() as int) =~= hits@);
    }
}

/// The request to create one explosion at a dead actor's last known
/// position, with `abs(health)` driving both its damage and its radius.
#[derive(PartialEq, Eq, Structural, Clone, Copy, Debug)]
pub struct ExplosionSpawn {
    pub power: i32,
    pub x: i64,
    pub y: i64,
}

/// The change-triggered death check: an actor whose health has reached
/// zero or below is despawned and exactly one explosion is requested at
/// its last transform; a live actor produces nothing.
pub fn death_check(enemy: &Enemy, x: i64, y: i64) -> (out: Option<ExplosionSpawn>)
    requires
        enemy.health > i32::MIN,
    ensures
        out is Some <==> enemy.health <= 0,
        enemy.health <= 0 ==> out == Some(
            ExplosionSpawn { power: (-enemy.health) as i32, x, y },
        ),
{
    if enemy.health <= 0 {
        Some(ExplosionSpawn { power: -enemy.health, x, y })
    } else {
        None
    }
}

/// One full combat-resolution step for one actor: accumulate every hit of
/// this tick, then run the death check once. A double-kill in one tick
/// still yields exactly one despawn and one explosion, and the explosion's
/// power equals `abs(health)` after all damage is in.
pub fn resolve_combat(enemy: &mut Enemy, hits: &Vec<Hit>, x: i64, y: i64) -> (out: Option<
    ExplosionSpawn,
>)
    requires
        all_damage_nonneg(hits@),
        old(enemy).health - total_damage(hits@) > i32::MIN,
    ensures
        final(enemy).health == old(enemy).health - total_damage(hits@),
        final(enemy).facing == old(enemy).facing,
        out is Some <==> final(enemy).health <= 0,
        final(enemy).health <= 0 ==> out == Some(
            ExplosionSpawn { power: (-final(enemy).health) as i32, x, y },
        ),
{
    apply_hits(enemy, hits);
    death_check(enemy, x, y)
}

/// A transient area-damage effect. Its collider extent (fixed-point
/// radius) is forced to zero on every lifecycle tick after creation, so
/// overlapping actors are damaged at most once, during the same tick the
/// death-triggered spawn ran; the effect is fully removed only when its
/// lifetime timer elapses.
#[derive(PartialEq, Eq, Structural, Clone, Copy, Debug)]
pub struct Explosion {
    pub power: i32,
    pub extent: i64,
    pub timer: Countdown,
}

impl Explosion {
    /// The explosion's lifetime timer is one-shot and its measures are
    /// nonnegative.
    pub open spec fn wf(self) -> bool {
        !self.timer.repeating && self.power >= 0 && self.extent >= 0
    }

    /// Creates the explosion requested by a death check: its collider
    /// radius (in fixed-point sub-units) and power both come from the
    /// spawn request, and its lifetime window starts counting from zero.
    pub fn new(spawn: &ExplosionSpawn) -> (e: Explosion)
        requires
            spawn.power >= 0,
        ensures
            e.power == spawn.power,
            e.extent == spawn.power as int * 1000,
            e.timer.duration_ms == EXPLOSION_LIFETIME_MS,
            e.timer.elapsed_ms == 0,
            e.wf(),
    {
        Explosion {
            power: spawn.power,
            extent: (spawn.power as i64) * 1000,
            timer: Countdown::new(EXPLOSION_LIFETIME_MS, false),
        }
    }

    /// Whether a lifecycle tick of `delta_ms` removes the explosion.
    pub open spec fn spec_despawns(self, delta_ms: int) -> bool {
        self.timer.elapsed_ms + delta_ms >= self.timer.duration_ms
    }

    /// The explosion state after a lifecycle tick of `delta_ms`: the
    /// collider extent is zero and the lifetime timer has advanced.
    pub open spec fn spec_after_tick(self, delta_ms: int) -> Explosion {
        Explosion {
            power: self.power,
            extent: 0,
            timer: Countdown {
                duration_ms: self.timer.duration_ms,
                elapsed_ms: (self.timer.elapsed_ms + delta_ms) as u64,
                repeating: self.timer.repeating,
            },
        }
    }

    /// One lifecycle tick: shrinks the collider to zero extent, advances
    /// the lifetime timer, and reports whether the explosion must now be
    /// removed from the simulation.
    pub fn tick(&mut self, delta_ms: u64) -> (despawn: bool)
        requires
            old(self).wf(),
            old(self).timer.elapsed_ms + delta_ms <= u64::MAX,
        ensures
            *final(self) == old(self).spec_after_tick(delta_ms as int),
            despawn == old(self).spec_despawns(delta_ms as int),
            final(self).wf(),
    {
        let fin = self.timer.tick(delta_ms);
        self.extent = 0;
        fin
    }
}

/// An explosion's collider is gone before the explosion is: a freshly
/// spawned explosion survives any first tick shorter than its lifetime,
/// and that first tick already forces its extent to zero, so by the later
/// tick that removes it the collider has been at zero extent for at least
/// one full tick.
pub proof fn lemma_explosion_collider_zeroed_before_removal(e: Explosion, d1: int, d2: int)
    requires
        e.wf(),
        e.timer.elapsed_ms == 0,
        0 <= d1 < e.timer.duration_ms,
        d2 >= 0,
    ensures
        !e.spec_despawns(d1),
        e.spec_after_tick(d1).extent == 0,
        e.spec_after_tick(d1).spec_after_tick(d2).extent == 0,
{
}

} // verus!
