//! The Climber archetype: constant horizontal advance plus a
//! cooldown-gated vertical vault when overlapping a cliff-edge sensor.
//!
//! The cooldown must fully elapse between vaults: overlapping the same
//! sensor across many consecutive ticks must not produce a resonant
//! string of impulses. The rate-limit law at the bottom of this module
//! bounds the impulses any tick sequence can fire.

use crate::combat::Enemy;
use crate::facing::{sign_of, Facing};
use crate::rng::rand_range;
use crate::units::Vec2i;
use vstd::arithmetic::div_mod::{lemma_div_by_multiple, lemma_div_is_ordered};
use vstd::prelude::*;

verus! {

/// Health a climber spawns with.
pub const CLIMBER_HEALTH: i32 = 1;

/// Time that must elapse between two climb impulses of one actor.
pub const CLIMB_COOLDOWN_MS: u64 = 1000;

/// Per-actor climb state: simulation time accumulated toward the next
/// allowed vault. A fresh climber must wait out one full cooldown before
/// its first vault.
#[derive(PartialEq, Eq, Structural, Clone, Copy, Debug)]
pub struct ClimbState {
    pub since_ms: u64,
}

impl ClimbState {
    pub fn new() -> (s: ClimbState)
        ensures
            s.since_ms == 0,
    {
        ClimbState { since_ms: 0 }
    }
}

/// Everything a freshly constructed climber carries.
#[derive(PartialEq, Eq, Structural, Clone, Copy, Debug)]
pub struct ClimberBundle {
    pub enemy: Enemy,
    pub climb: ClimbState,
    pub velocity: Vec2i,
    pub pos: Vec2i,
}

/// Constructs a climber at a map edge: facing is a fair coin and the
/// actor walks in horizontally at constant speed.
pub fn spawn_climber() -> (b: ClimberBundle)
    ensures
        b.enemy.health == CLIMBER_HEALTH,
        b.climb.since_ms == 0,
        b.velocity.x == 2000 * sign_of(b.enemy.facing),
        b.velocity.y == 0,
        b.pos.x == -16000 * sign_of(b.enemy.facing),
        b.pos.y == 1000,
{
    let facing = if rand_range(0, 2) == 0 {
        Facing::Left
    } else {
        Facing::Right
    };
    let mul = facing.sign();
    let vx = 2000i64 * mul;
    let sx = (-16000i64) * mul;
    ClimberBundle {
        enemy: Enemy { health: CLIMBER_HEALTH, facing },
        climb: ClimbState::new(),
        velocity: Vec2i { x: vx, y: 0 },
        pos: Vec2i { x: sx, y: 1000 },
    }
}

/// Whether one tick fires a climb impulse: the actor overlaps a
/// cliff-edge sensor and its cooldown has fully elapsed.
pub open spec fn climb_step_fires(since: int, on_cliff_edge: bool, delta: int) -> bool {
    on_cliff_edge && since + delta >= CLIMB_COOLDOWN_MS
}

/// The accumulated cooldown time after one tick: firing resets it.
pub open spec fn climb_step_since(since: int, on_cliff_edge: bool, delta: int) -> int {
    if climb_step_fires(since, on_cliff_edge, delta) {
        0
    } else {
        since + delta
    }
}

/// One behavior tick of a climber: advances the cooldown clock and, when
/// the actor overlaps a cliff-edge sensor with its cooldown elapsed,
/// fires the one-shot vault impulse (small facing-biased horizontal
/// component, large fixed vertical component) and restarts the cooldown.
pub fn climb_tick(st: &mut ClimbState, facing: Facing, on_cliff_edge: bool, delta_ms: u64) -> (imp:
    Option<Vec2i>)
    requires
        old(st).since_ms + delta_ms <= u64::MAX,
    ensures
        (imp is Some) == climb_step_fires(old(st).since_ms as int, on_cliff_edge, delta_ms as int),
        final(st).since_ms == climb_step_since(
            old(st).since_ms as int,
            on_cliff_edge,
            delta_ms as int,
        ),
        imp matches Some(v) ==> v.x == 1000 * sign_of(facing) && v.y == 9000,
{
    let accumulated: u64 = st.since_ms + delta_ms;
    if on_cliff_edge && accumulated >= CLIMB_COOLDOWN_MS {
        st.since_ms = 0;
        let mul = facing.sign();
        let vx = 1000i64 * mul;
        Some(Vec2i { x: vx, y: 9000 })
    } else {
        st.since_ms = accumulated;
        None
    }
}

/// One entry of a climb tick sequence: whether the actor overlapped a
/// cliff-edge sensor that tick, and the tick's delta time.
pub struct ClimbTick {
    pub on_cliff_edge: bool,
    pub delta: int,
}

/// Every delta of a tick sequence is nonnegative.
pub open spec fn climb_deltas_nonneg(ticks: Seq<ClimbTick>) -> bool {
    forall|i: int| 0 <= i < ticks.len() ==> (#[trigger] ticks[i]).delta >= 0
}

/// The total simulation time a tick sequence spans.
pub open spec fn climb_total_ms(ticks: Seq<ClimbTick>) -> int
    decreases ticks.len(),
{
    if ticks.len() == 0 {
        0
    } else {
        ticks.first().delta + climb_total_ms(ticks.drop_first())
    }
}

/// How many climb impulses a tick sequence fires, starting from an
/// accumulated cooldown of `since`.
pub open spec fn climb_run_fires(since: int, ticks: Seq<ClimbTick>) -> int
    decreases ticks.len(),
{
    if ticks.len() == 0 {
        0
    } else {
        let t = ticks.first();
        (if climb_step_fires(since, t.on_cliff_edge, t.delta) {
            1int
        } else {
            0int
        }) + climb_run_fires(climb_step_since(since, t.on_cliff_edge, t.delta), ticks.drop_first())
    }
}

/// The climb rate limit: over any tick sequence, a climber fires at most
/// `floor((since + total time) / cooldown)` impulses — one per elapsed
/// cooldown window, never one per overlapping tick.
pub proof fn lemma_climb_rate_limit(since: int, ticks: Seq<ClimbTick>)
    requires
        since >= 0,
        climb_deltas_nonneg(ticks),
    ensures
        0 <= climb_run_fires(since, ticks),
        CLIMB_COOLDOWN_MS * climb_run_fires(since, ticks) <= since + climb_total_ms(ticks),
        climb_run_fires(since, ticks) <= (since + climb_total_ms(ticks)) / (
        CLIMB_COOLDOWN_MS as int),
{
    lemma_climb_accumulated(since, ticks);
    let fires = climb_run_fires(since, ticks);
    let budget = since + climb_total_ms(ticks);
    lemma_div_is_ordered(1000 * fires, budget, 1000);
    lemma_div_by_multiple(fires, 1000);
}

/// Induction core of the rate limit: each fired impulse consumes one full
/// cooldown of accumulated time.
proof fn lemma_climb_accumulated(since: int, ticks: Seq<ClimbTick>)
    requires
        since >= 0,
        climb_deltas_nonneg(ticks),
    ensures
        0 <= climb_run_fires(since, ticks),
        CLIMB_COOLDOWN_MS * climb_run_fires(since, ticks) <= since + climb_total_ms(ticks),
    decreases ticks.len(),
{
    if ticks.len() > 0 {
        let t = ticks.first();
        assert(climb_deltas_nonneg(ticks.drop_first())) by {
            assert(forall|i: int|
                0 <= i < ticks.drop_first().len() ==> (#[trigger] ticks.drop_first()[i]) == ticks[i
                    + 1]);
        }
        assert(t.delta >= 0) by {
            assert(ticks[0] == t);
        }
        lemma_climb_accumulated(climb_step_since(since, t.on_cliff_edge, t.delta),
            ticks.drop_first());
    }
}

} // verus!
