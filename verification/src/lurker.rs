//! The Lurker archetype: a slow drifter with one delayed forced launch.
//!
//! A lurker spawns with a small constant horizontal force already applied
//! and a delay timer drawn from a fixed range. When the timer completes
//! and its step counter is still zero, it fires one large facing-biased
//! diagonal launch and advances the counter, permanently disabling
//! further launches for that actor instance.

use crate::combat::Enemy;
use crate::facing::{sign_of, Facing};
use crate::rng::rand_range;
use crate::timer::Countdown;
use crate::units::Vec2i;
use vstd::prelude::*;

verus! {

/// Health a lurker spawns with.
pub const LURKER_HEALTH: i32 = 1;

/// Shortest delay (inclusive) a lurker's launch timer may draw.
pub const LURKER_DELAY_MIN_MS: u64 = 3000;

/// Longest delay (exclusive) a lurker's launch timer may draw.
pub const LURKER_DELAY_MAX_MS: u64 = 5000;

/// Per-actor launch state: the one-way step counter (0 before the
/// launch, 1 after) and the randomized one-shot delay timer.
#[derive(PartialEq, Eq, Structural, Clone, Copy, Debug)]
pub struct LurkerState {
    pub step: u8,
    pub delay: Countdown,
}

impl LurkerState {
    /// The delay timer is one-shot and the step counter never leaves
    /// {0, 1}.
    pub open spec fn wf(self) -> bool {
        !self.delay.repeating && self.step <= 1
    }
}

/// Everything a freshly constructed lurker carries: actor data, launch
/// state, the constant drift force, and the spawn position.
#[derive(PartialEq, Eq, Structural, Clone, Copy, Debug)]
pub struct LurkerBundle {
    pub enemy: Enemy,
    pub lurker: LurkerState,
    pub drift_force: Vec2i,
    pub pos: Vec2i,
}

/// Constructs a lurker at a map edge: facing is a fair coin, the drift
/// force points toward the defender's side, and the launch delay is
/// drawn uniformly from the fixed range.
pub fn spawn_lurker() -> (b: LurkerBundle)
    ensures
        b.enemy.health == LURKER_HEALTH,
        b.lurker.step == 0,
        b.lurker.delay.elapsed_ms == 0,
        LURKER_DELAY_MIN_MS <= b.lurker.delay.duration_ms < LURKER_DELAY_MAX_MS,
        b.lurker.wf(),
        b.drift_force.x == 7000 * sign_of(b.enemy.facing),
        b.drift_force.y == 0,
        b.pos.x == -16000 * sign_of(b.enemy.facing),
        b.pos.y == 3000,
{
    let facing = if rand_range(0, 2) == 0 {
        Facing::Left
    } else {
        Facing::Right
    };
    let mul = facing.sign();
    let delay_ms = rand_range(LURKER_DELAY_MIN_MS, LURKER_DELAY_MAX_MS);
    let fx = 7000i64 * mul;
    let sx = (-16000i64) * mul;
    LurkerBundle {
        enemy: Enemy { health: LURKER_HEALTH, facing },
        lurker: LurkerState { step: 0, delay: Countdown::new(delay_ms, false) },
        drift_force: Vec2i { x: fx, y: 0 },
        pos: Vec2i { x: sx, y: 3000 },
    }
}

/// Whether one tick fires the forced launch: the step counter is still
/// zero and this tick completes the delay timer.
pub open spec fn lurk_step_fires(step: int, elapsed: int, duration: int, delta: int) -> bool {
    step == 0 && elapsed + delta >= duration
}

/// One behavior tick of a lurker: advances the delay timer; on the tick
/// the timer completes with the step counter still zero, fires the one
/// large facing-biased diagonal launch and advances the counter.
pub fn lurk_tick(st: &mut LurkerState, facing: Facing, delta_ms: u64) -> (f: Option<Vec2i>)
    requires
        old(st).wf(),
        old(st).delay.elapsed_ms + delta_ms <= u64::MAX,
    ensures
        final(st).wf(),
        final(st).delay.duration_ms == old(st).delay.duration_ms,
        final(st).delay.elapsed_ms == old(st).delay.elapsed_ms + delta_ms,
        (f is Some) == lurk_step_fires(
            old(st).step as int,
            old(st).delay.elapsed_ms as int,
            old(st).delay.duration_ms as int,
            delta_ms as int,
        ),
        f is Some ==> final(st).step == 1,
        f is None ==> final(st).step == old(st).step,
        f matches Some(v) ==> v.x == 7500 * sign_of(facing) && v.y == 28000,
{
    let fin = st.delay.tick(delta_ms);
    if fin && st.step == 0 {
        st.step = st.step + 1;
        let mul = facing.sign();
        let fx = 7500i64 * mul;
        Some(Vec2i { x: fx, y: 28000 })
    } else {
        None
    }
}

/// The sum of a delta sequence.
pub open spec fn sum_ms(deltas: Seq<int>) -> int
    decreases deltas.len(),
{
    if deltas.len() == 0 {
        0
    } else {
        deltas.first() + sum_ms(deltas.drop_first())
    }
}

/// Every delta of a tick sequence is nonnegative.
pub open spec fn deltas_nonneg(deltas: Seq<int>) -> bool {
    forall|i: int| 0 <= i < deltas.len() ==> #[trigger] deltas[i] >= 0
}

/// How many launches a lurker fires over a delta sequence, starting from
/// a given step counter and timer state.
pub open spec fn lurk_run_fires(step: int, elapsed: int, duration: int, deltas: Seq<int>) -> int
    decreases deltas.len(),
{
    if deltas.len() == 0 {
        0
    } else {
        let d = deltas.first();
        if lurk_step_fires(step, elapsed, duration, d) {
            1 + lurk_run_fires(1, elapsed + d, duration, deltas.drop_first())
        } else {
            lurk_run_fires(step, elapsed + d, duration, deltas.drop_first())
        }
    }
}

/// The forced launch fires exactly once: over any tick sequence, a lurker
/// with its step counter at zero launches precisely when the sequence
/// completes its delay timer — once, on the completing tick, and never
/// again however many ticks follow; a lurker whose counter has advanced
/// never launches.
pub proof fn lemma_lurker_fires_once(step: int, elapsed: int, duration: int, deltas: Seq<int>)
    requires
        step == 0 || step == 1,
        deltas_nonneg(deltas),
    ensures
        lurk_run_fires(step, elapsed, duration, deltas) == if step == 0 && elapsed + sum_ms(deltas)
            >= duration && deltas.len() > 0 {
            1int
        } else {
            0int
        },
    decreases deltas.len(),
{
    if deltas.len() > 0 {
        let d = deltas.first();
        assert(deltas[0] == d);
        assert(deltas_nonneg(deltas.drop_first())) by {
            assert(forall|i: int|
                0 <= i < deltas.drop_first().len() ==> #[trigger] deltas.drop_first()[i] == deltas[
                    i + 1]);
        }
        if lurk_step_fires(step, elapsed, duration, d) {
            lemma_lurker_fires_once(1, elapsed + d, duration, deltas.drop_first());
            lemma_sum_nonneg(deltas.drop_first());
        } else {
            lemma_lurker_fires_once(step, elapsed + d, duration, deltas.drop_first());
            if deltas.drop_first().len() == 0 {
                assert(sum_ms(deltas.drop_first()) == 0);
                assert(sum_ms(deltas) == d);
            }
        }
    }
}

/// A nonnegative delta sequence has a nonnegative sum.
proof fn lemma_sum_nonneg(deltas: Seq<int>)
    requires
        deltas_nonneg(deltas),
    ensures
        sum_ms(deltas) >= 0,
    decreases deltas.len(),
{
    if deltas.len() > 0 {
        assert(deltas[0] == deltas.first());
        assert(deltas_nonneg(deltas.drop_first())) by {
            assert(forall|i: int|
                0 <= i < deltas.drop_first().len() ==> #[trigger] deltas.drop_first()[i] == deltas[
                    i + 1]);
        }
        lemma_sum_nonneg(deltas.drop_first());
    }
}

} // verus!
