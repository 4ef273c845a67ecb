//! The defender and the player-fired projectile.
//!
//! A projectile charges while the fire button is held: its size follows a
//! periodic curve sampled by the input layer, driving both its damage and
//! its collider radius. On release it is launched with a speed that grows
//! with its size, and it is removed on first contact with any damageable
//! actor or when its timeout elapses.

use crate::timer::Countdown;
use crate::units::Vec2i;
use vstd::prelude::*;

verus! {

/// The defender's fixed horizontal position.
pub const PLAYER_X: i64 = 0;

/// The defender's fixed vertical position.
pub const PLAYER_Y: i64 = 8750;

/// How long a launched projectile lives without hitting anything.
pub const PROJECTILE_TIMEOUT_MS: u64 = 3000;

/// The period of the charge curve the input layer samples.
pub const CHARGE_PERIOD_MS: u64 = 10000;

/// Smallest charged size.
pub const PROJECTILE_MIN_SIZE: i32 = 1;

/// Largest charged size.
pub const PROJECTILE_MAX_SIZE: i32 = 5;

/// A player-fired projectile: its charged size (damage and collider
/// driver), its charge and timeout timers, and whether it is still held
/// charging.
#[derive(PartialEq, Eq, Structural, Clone, Copy, Debug)]
pub struct PlayerProjectile {
    pub size: i32,
    pub charge: Countdown,
    pub timeout: Countdown,
    pub charging: bool,
}

impl PlayerProjectile {
    /// The size stays inside the charge curve's range and the timers keep
    /// their modes.
    pub open spec fn wf(self) -> bool {
        1 <= self.size <= 5 && self.charge.repeating && !self.timeout.repeating
    }

    /// A freshly spawned projectile: smallest size, charging, with a
    /// repeating charge clock and its launch timeout not yet running.
    pub fn new() -> (p: PlayerProjectile)
        ensures
            p.size == 1,
            p.charging,
            p.charge.duration_ms == CHARGE_PERIOD_MS,
            p.charge.elapsed_ms == 0,
            p.timeout.duration_ms == PROJECTILE_TIMEOUT_MS,
            p.timeout.elapsed_ms == 0,
            p.wf(),
    {
        PlayerProjectile {
            size: 1,
            charge: Countdown::new(CHARGE_PERIOD_MS, true),
            timeout: Countdown::new(PROJECTILE_TIMEOUT_MS, false),
            charging: true,
        }
    }

    /// One charging tick: advances the charge clock and adopts the curve
    /// sample the input layer computed from it, returning the collider
    /// radius (fixed-point) that goes with the new size.
    pub fn charge_tick(&mut self, delta_ms: u64, curve_size: i32) -> (radius: i64)
        requires
            old(self).wf(),
            old(self).charging,
            1 <= curve_size <= 5,
            old(self).charge.elapsed_ms + delta_ms <= u64::MAX,
        ensures
            final(self).wf(),
            final(self).charging,
            final(self).size == curve_size,
            final(self).timeout == old(self).timeout,
            final(self).charge.duration_ms == old(self).charge.duration_ms,
            old(self).charge.elapsed_ms + delta_ms < old(self).charge.duration_ms ==> final(
            self).charge.elapsed_ms == old(self).charge.elapsed_ms + delta_ms,
            old(self).charge.elapsed_ms + delta_ms >= old(self).charge.duration_ms && old(
            self).charge.duration_ms > 0 ==> final(self).charge.elapsed_ms == (old(
            self).charge.elapsed_ms + delta_ms) % (old(self).charge.duration_ms as int),
            radius == 500 + 50 * curve_size,
    {
        let _wrapped = self.charge.tick(delta_ms);
        self.size = curve_size;
        500 + 50 * (curve_size as i64)
    }

    /// Releasing the fire button: the projectile stops charging and
    /// becomes a live body.
    pub fn release(&mut self)
        ensures
            *final(self) == (PlayerProjectile { charging: false, ..*old(self) }),
    {
        self.charging = false;
    }

    /// One post-launch tick of the timeout: a projectile whose timeout
    /// had already elapsed explodes (and its timer is left alone);
    /// otherwise the timer advances.
    pub fn timeout_tick(&mut self, delta_ms: u64) -> (explode: bool)
        requires
            old(self).wf(),
            !old(self).charging,
            old(self).timeout.elapsed_ms + delta_ms <= u64::MAX,
        ensures
            final(self).wf(),
            explode == (old(self).timeout.elapsed_ms >= old(self).timeout.duration_ms),
            explode ==> *final(self) == *old(self),
            !explode ==> *final(self) == (PlayerProjectile {
                timeout: Countdown {
                    elapsed_ms: (old(self).timeout.elapsed_ms + delta_ms) as u64,
                    ..old(self).timeout
                },
                ..*old(self)
            }),
    {
        if self.timeout.finished() {
            true
        } else {
            let _fin = self.timeout.tick(delta_ms);
            false
        }
    }
}

/// The launch speed (fixed-point units per second) for a charged size:
/// a fixed table that grows with size, flattening toward the largest
/// charge.
pub open spec fn spec_launch_speed(size: int) -> int {
    if size <= 1 {
        7000
    } else if size == 2 {
        16425
    } else if size == 3 {
        20286
    } else if size == 4 {
        21989
    } else {
        22910
    }
}

/// The launch speed for a charged size.
pub fn launch_speed(size: i32) -> (speed: i64)
    requires
        1 <= size <= 5,
    ensures
        speed == spec_launch_speed(size as int),
        speed >= 7000,
{
    if size <= 1 {
        7000
    } else if size == 2 {
        16425
    } else if size == 3 {
        20286
    } else if size == 4 {
        21989
    } else {
        22910
    }
}

/// Larger charges launch strictly faster.
pub proof fn lemma_launch_speed_monotone(a: int, b: int)
    requires
        1 <= a < b <= 5,
    ensures
        spec_launch_speed(a) < spec_launch_speed(b),
{
}

/// One velocity component: the direction component scaled by the launch
/// speed, rounded toward zero.
pub open spec fn spec_scaled_component(d: int, speed: int) -> int {
    if d >= 0 {
        d * speed / 1000
    } else {
        -((-d) * speed / 1000)
    }
}

/// The launch velocity: the aim direction (a unit vector in fixed-point,
/// components in `[-1000, 1000]`) scaled by the size's launch speed.
pub fn launch_velocity(dir: Vec2i, size: i32) -> (v: Vec2i)
    requires
        1 <= size <= 5,
        -1000 <= dir.x <= 1000,
        -1000 <= dir.y <= 1000,
    ensures
        v.x == spec_scaled_component(dir.x as int, spec_launch_speed(size as int)),
        v.y == spec_scaled_component(dir.y as int, spec_launch_speed(size as int)),
{
    let speed = launch_speed(size);
    Vec2i { x: scaled_component(dir.x, speed), y: scaled_component(dir.y, speed) }
}

/// Scales one direction component by a launch speed.
fn scaled_component(d: i64, speed: i64) -> (r: i64)
    requires
        -1000 <= d <= 1000,
        0 <= speed <= 30000,
    ensures
        r == spec_scaled_component(d as int, speed as int),
{
    if d >= 0 {
        proof {
            assert(0 <= d * speed <= 30000000) by (nonlinear_arith)
                requires
                    0 <= d <= 1000,
                    0 <= speed <= 30000,
            ;
        }
        d * speed / 1000
    } else {
        proof {
            assert(0 <= (-d) * speed <= 30000000) by (nonlinear_arith)
                requires
                    -1000 <= d < 0,
                    0 <= speed <= 30000,
            ;
        }
        -((-d) * speed / 1000)
    }
}

/// Where a charging projectile is held: two units out from the defender
/// along the aim direction.
pub fn aim_position(dir: Vec2i) -> (pos: Vec2i)
    requires
        -1000 <= dir.x <= 1000,
        -1000 <= dir.y <= 1000,
    ensures
        pos.x == PLAYER_X + 2 * dir.x,
        pos.y == PLAYER_Y + 2 * dir.y,
{
    Vec2i { x: PLAYER_X + 2 * dir.x, y: PLAYER_Y + 2 * dir.y }
}

/// What a projectile's collision set contains, as the combat layer sees
/// it.
#[derive(PartialEq, Eq, Structural, Clone, Copy, Debug)]
pub enum ContactTag {
    Enemy,
    EnemyProjectile,
    Ground,
    Other,
}

/// Whether any contact is a damageable enemy actor (enemy projectiles do
/// not count).
pub open spec fn touches_enemy(contacts: Seq<ContactTag>) -> bool {
    exists|i: int| 0 <= i < contacts.len() && #[trigger] contacts[i] == ContactTag::Enemy
}

/// A launched projectile is removed on its first contact with any
/// damageable actor; its own destruction does not consume the damage it
/// dealt this tick.
pub fn projectile_should_explode(contacts: &Vec<ContactTag>) -> (b: bool)
    ensures
        b == touches_enemy(contacts@),
{
    let mut i: usize = 0;
    while i < contacts.len()
        invariant
            0 <= i <= contacts@.len(),
            forall|j: int| 0 <= j < i ==> #[trigger] contacts@[j] != ContactTag::Enemy,
        decreases contacts@.len() - i,
    {
        if matches!(contacts[i], ContactTag::Enemy) {
            return true;
        }
        i = i + 1;
    }
    false
}

} // verus!
