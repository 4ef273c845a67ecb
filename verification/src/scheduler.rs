//! The time-driven spawn scheduler.
//!
//! A repeating countdown timer drives spawn cycles: each time it elapses,
//! the scheduler draws the next interval uniformly from the configured
//! `[min_spawn_time, max_spawn_time)` range, draws a probability value, and
//! walks the archetypes in fixed priority order (Hopper, Climber, Lurker,
//! Giant), subtracting each weight in turn; the first archetype whose
//! remaining weight covers the draw is spawned. A draw that exhausts every
//! weight spawns nothing, as does a cycle whose configured interval range
//! is invalid (the scheduler skips rather than fails).

use crate::rates::{weight, SpawnRates};
use crate::rng::rand_range;
use crate::timer::Countdown;
use vstd::prelude::*;

verus! {

/// The enemy behavior kinds the scheduler can select.
#[derive(PartialEq, Eq, Structural, Clone, Copy, Debug)]
pub enum Archetype {
    Hopper,
    Climber,
    Lurker,
    Giant,
}

/// A spawn-interval bound read as an integer: an unset bound counts as
/// zero, which always makes the range invalid.
pub open spec fn bound_or_zero(t: Option<u64>) -> int {
    match t {
        Option::Some(v) => v as int,
        Option::None => 0,
    }
}

/// Whether the configured spawn-interval range can be drawn from.
pub open spec fn interval_range_valid(rates: SpawnRates) -> bool {
    bound_or_zero(rates.min_spawn_time) < bound_or_zero(rates.max_spawn_time)
}

/// The weighted selection walk over the archetype priority order: the
/// first archetype with positive weight whose remaining weight lies at or
/// above the (remaining) draw is selected; a draw that exhausts all
/// weights selects nothing.
pub open spec fn spec_select(h: int, c: int, l: int, g: int, r: int) -> Option<Archetype> {
    if h > 0 && r <= h {
        Option::Some(Archetype::Hopper)
    } else if c > 0 && r - h <= c {
        Option::Some(Archetype::Climber)
    } else if l > 0 && r - h - c <= l {
        Option::Some(Archetype::Lurker)
    } else if g > 0 && r - h - c - l <= g {
        Option::Some(Archetype::Giant)
    } else {
        Option::None
    }
}

/// The selection that a probability draw `r` makes against the current
/// weights.
pub fn select_archetype(rates: &SpawnRates, r: u32) -> (sel: Option<Archetype>)
    ensures
        sel == spec_select(
            weight(rates.hopper),
            weight(rates.climber),
            weight(rates.lurker),
            weight(rates.giant),
            r as int,
        ),
{
    let h = match rates.hopper {
        Some(v) => v,
        None => 0,
    };
    if h > 0 && r <= h {
        return Some(Archetype::Hopper);
    }
    let r1 = r - h;
    let c = match rates.climber {
        Some(v) => v,
        None => 0,
    };
    if c > 0 && r1 <= c {
        return Some(Archetype::Climber);
    }
    let r2 = r1 - c;
    let l = match rates.lurker {
        Some(v) => v,
        None => 0,
    };
    if l > 0 && r2 <= l {
        return Some(Archetype::Lurker);
    }
    let r3 = r2 - l;
    let g = match rates.giant {
        Some(v) => v,
        None => 0,
    };
    if g > 0 && r3 <= g {
        return Some(Archetype::Giant);
    }
    None
}

/// An archetype whose weight is zero is never selected, whatever the
/// draw: with every weight zero a cycle spawns nothing.
pub proof fn lemma_zero_weight_never_selected(h: int, c: int, l: int, g: int, r: int)
    requires
        h >= 0,
        c >= 0,
        l >= 0,
        g >= 0,
        r >= 0,
    ensures
        h == 0 ==> spec_select(h, c, l, g, r) != Option::Some(Archetype::Hopper),
        c == 0 ==> spec_select(h, c, l, g, r) != Option::Some(Archetype::Climber),
        l == 0 ==> spec_select(h, c, l, g, r) != Option::Some(Archetype::Lurker),
        g == 0 ==> spec_select(h, c, l, g, r) != Option::Some(Archetype::Giant),
        h == 0 && c == 0 && l == 0 && g == 0 ==> spec_select(h, c, l, g, r) is None,
{
}

/// With every weight positive, the draws partition into consecutive
/// intervals whose widths match the configured weights (up to the single
/// boundary draw that the at-or-below rule gives the first archetype), so
/// the spawn distribution over a uniform draw follows the weights.
pub proof fn lemma_selection_partition(h: int, c: int, l: int, g: int, r: int)
    requires
        h > 0,
        c > 0,
        l > 0,
        g > 0,
        r >= 0,
    ensures
        (spec_select(h, c, l, g, r) == Option::Some(Archetype::Hopper)) == (r <= h),
        (spec_select(h, c, l, g, r) == Option::Some(Archetype::Climber)) == (h < r <= h + c),
        (spec_select(h, c, l, g, r) == Option::Some(Archetype::Lurker)) == (h + c < r <= h + c
            + l),
        (spec_select(h, c, l, g, r) == Option::Some(Archetype::Giant)) == (h + c + l < r <= h + c
            + l + g),
        (spec_select(h, c, l, g, r) is None) == (r > h + c + l + g),
{
}

/// The outcome of one scheduler cycle: which archetype (if any) to spawn,
/// the probability draw that decided it, and the freshly drawn next
/// interval. All three are `None` on a tick whose timer did not elapse or
/// whose interval range was invalid.
#[derive(PartialEq, Eq, Structural, Clone, Copy, Debug)]
pub struct SpawnCycle {
    pub spawn: Option<Archetype>,
    pub draw: Option<u32>,
    pub interval_ms: Option<u64>,
}

/// The repeating spawn timer and its cycle logic.
#[derive(PartialEq, Eq, Structural, Clone, Copy, Debug)]
pub struct SpawnScheduler {
    pub timer: Countdown,
}

impl SpawnScheduler {
    /// The scheduler's timer repeats: it re-arms itself every cycle.
    pub open spec fn wf(self) -> bool {
        self.timer.repeating
    }

    /// A scheduler whose first cycle fires one second in.
    pub fn new() -> (s: SpawnScheduler)
        ensures
            s.timer.duration_ms == 1000,
            s.timer.elapsed_ms == 0,
            s.wf(),
    {
        SpawnScheduler { timer: Countdown::new(1000, true) }
    }

    /// Advances the spawn timer by `delta_ms`; when it elapses, draws the
    /// next interval from the live configured range and selects at most
    /// one archetype by the weighted walk. The scheduler always reads the
    /// rates passed in for this tick, never a cached snapshot.
    pub fn run_cycle(&mut self, rates: &SpawnRates, delta_ms: u64) -> (out: SpawnCycle)
        requires
            old(self).wf(),
            old(self).timer.elapsed_ms + delta_ms <= u64::MAX,
        ensures
            final(self).wf(),
            ({
                let fired = old(self).timer.elapsed_ms + delta_ms >= old(self).timer.duration_ms;
                &&& (!fired ==> out.spawn is None && out.draw is None && out.interval_ms is None
                    && final(self).timer.duration_ms == old(self).timer.duration_ms && final(
                self).timer.elapsed_ms == old(self).timer.elapsed_ms + delta_ms)
                &&& (fired && old(self).timer.duration_ms > 0 ==> final(self).timer.elapsed_ms == (
                old(self).timer.elapsed_ms + delta_ms) % (old(self).timer.duration_ms as int))
                &&& (fired && old(self).timer.duration_ms == 0 ==> final(self).timer.elapsed_ms
                    == 0)
                &&& (fired && !interval_range_valid(*rates) ==> out.spawn is None && out.draw
                    is None && out.interval_ms is None && final(self).timer.duration_ms == old(
                self).timer.duration_ms)
                &&& (fired && interval_range_valid(*rates) ==> {
                    &&& out.interval_ms matches Some(d) && bound_or_zero(rates.min_spawn_time) <= d
                        < bound_or_zero(rates.max_spawn_time) && final(self).timer.duration_ms == d
                    &&& out.draw matches Some(rv) && rv < 1000000 && out.spawn == spec_select(
                        weight(rates.hopper),
                        weight(rates.climber),
                        weight(rates.lurker),
                        weight(rates.giant),
                        rv as int,
                    )
                })
            }),
    {
        let fired = self.timer.tick(delta_ms);
        if !fired {
            return SpawnCycle { spawn: None, draw: None, interval_ms: None };
        }
        let mn = match rates.min_spawn_time {
            Some(v) => v,
            None => 0,
        };
        let mx = match rates.max_spawn_time {
            Some(v) => v,
            None => 0,
        };
        if mn >= mx {
            // Invalid or unset interval range: a configuration error.
            // Skip this cycle rather than fail.
            return SpawnCycle { spawn: None, draw: None, interval_ms: None };
        }
        let d = rand_range(mn, mx);
        self.timer.set_duration(d);
        let rv64 = rand_range(0, 1000000);
        let rv: u32 = rv64 as u32;
        let sel = select_archetype(rates, rv);
        SpawnCycle { spawn: sel, draw: Some(rv), interval_ms: Some(d) }
    }
}

} // verus!
