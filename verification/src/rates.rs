//! Per-archetype spawn probability weights and the spawn-interval range.
//!
//! A `SpawnRates` value doubles as a full configuration and as a partial
//! override: a `None` field in an override means "no change". Weights are
//! fixed-point fractions of [`crate::units::PROB_ONE`]; the interval pair
//! is in milliseconds.

use vstd::arithmetic::div_mod::{
    lemma_div_of0,
    lemma_div_pos_is_pos,
    lemma_fundamental_div_mod,
    lemma_hoist_over_denominator,
    lemma_mod_bound,
    lemma_multiply_divide_le,
    lemma_div_by_multiple,
};
use vstd::arithmetic::mul::{lemma_mul_inequality, lemma_mul_is_commutative,
    lemma_mul_is_distributive_add};
use vstd::prelude::*;

verus! {

/// Largest raw (unnormalized) weight accepted by [`SpawnRates::normalized`].
pub const RAW_WEIGHT_MAX: u64 = 1000000000;

/// A probability weight read as an integer: an absent weight counts as zero.
pub open spec fn weight(w: Option<u32>) -> int {
    match w {
        Option::Some(v) => v as int,
        Option::None => 0,
    }
}

/// A raw content-table weight read as an integer: absent counts as zero.
pub open spec fn raw_weight(w: Option<u64>) -> int {
    match w {
        Option::Some(v) => v as int,
        Option::None => 0,
    }
}

/// Field-wise override: a present `change` replaces `base`, an absent one
/// keeps it.
pub open spec fn override_opt<T>(base: Option<T>, change: Option<T>) -> Option<T> {
    if change is Some {
        change
    } else {
        base
    }
}

/// A raw weight scaled to the fixed-point fraction `raw * PROB_ONE / total`
/// of the raw total. An absent weight stays absent; a zero total maps every
/// present weight to zero.
pub open spec fn scaled(w: Option<u64>, total: int) -> Option<u32> {
    match w {
        Option::None => Option::None,
        Option::Some(v) => if total > 0 {
            Option::Some(((v * 1000000) / total) as u32)
        } else {
            Option::Some(0u32)
        },
    }
}

/// One override applied on top of a base configuration, field by field.
pub open spec fn apply_one(base: SpawnRates, change: SpawnRates) -> SpawnRates {
    SpawnRates {
        min_spawn_time: override_opt(base.min_spawn_time, change.min_spawn_time),
        max_spawn_time: override_opt(base.max_spawn_time, change.max_spawn_time),
        hopper: override_opt(base.hopper, change.hopper),
        climber: override_opt(base.climber, change.climber),
        lurker: override_opt(base.lurker, change.lurker),
        diver: override_opt(base.diver, change.diver),
        giant: override_opt(base.giant, change.giant),
        behemoth: override_opt(base.behemoth, change.behemoth),
    }
}

/// A sequence of overrides folded onto a base configuration, oldest
/// first.
pub open spec fn apply_fold(base: SpawnRates, changes: Seq<SpawnRates>) -> SpawnRates
    decreases changes.len(),
{
    if changes.len() == 0 {
        base
    } else {
        apply_fold(apply_one(base, changes.first()), changes.drop_first())
    }
}

/// Per-archetype spawn probability weights (fixed-point fractions of
/// `PROB_ONE`, each in `[0, PROB_ONE]` when well formed) plus the
/// minimum/maximum spawn-interval pair in milliseconds. Absent fields mean
/// "unset" in a full configuration and "no change" in an override.
#[derive(PartialEq, Eq, Structural, Clone, Copy, Debug, Default)]
pub struct SpawnRates {
    pub min_spawn_time: Option<u64>,
    pub max_spawn_time: Option<u64>,
    pub hopper: Option<u32>,
    pub climber: Option<u32>,
    pub lurker: Option<u32>,
    pub diver: Option<u32>,
    pub giant: Option<u32>,
    pub behemoth: Option<u32>,
}

impl SpawnRates {
    /// Every present weight is a genuine probability: at most `PROB_ONE`.
    pub open spec fn valid(self) -> bool {
        weight(self.hopper) <= 1000000 && weight(self.climber) <= 1000000 && weight(self.lurker)
            <= 1000000 && weight(self.diver) <= 1000000 && weight(self.giant) <= 1000000 && weight(
        self.behemoth) <= 1000000
    }

    /// The sum of all six archetype weights.
    pub open spec fn spec_all(self) -> int {
        weight(self.hopper) + weight(self.climber) + weight(self.lurker) + weight(self.diver)
            + weight(self.giant) + weight(self.behemoth)
    }

    /// The summed spawn probability over every archetype; the remainder up
    /// to `PROB_ONE` is the chance that a cycle spawns nothing.
    pub fn all(&self) -> (total: u64)
        ensures
            total == self.spec_all(),
    {
        let mut total: u64 = 0;
        if let Some(v) = self.hopper {
            total = total + v as u64;
        }
        if let Some(v) = self.climber {
            total = total + v as u64;
        }
        if let Some(v) = self.lurker {
            total = total + v as u64;
        }
        if let Some(v) = self.diver {
            total = total + v as u64;
        }
        if let Some(v) = self.giant {
            total = total + v as u64;
        }
        if let Some(v) = self.behemoth {
            total = total + v as u64;
        }
        total
    }

    /// Applies a partial override: every present field of `change` replaces
    /// the corresponding field; absent fields remain unchanged.
    pub fn apply(&mut self, change: &SpawnRates)
        ensures
            final(self).min_spawn_time == override_opt(old(self).min_spawn_time,
                change.min_spawn_time),
            final(self).max_spawn_time == override_opt(old(self).max_spawn_time,
                change.max_spawn_time),
            final(self).hopper == override_opt(old(self).hopper, change.hopper),
            final(self).climber == override_opt(old(self).climber, change.climber),
            final(self).lurker == override_opt(old(self).lurker, change.lurker),
            final(self).diver == override_opt(old(self).diver, change.diver),
            final(self).giant == override_opt(old(self).giant, change.giant),
            final(self).behemoth == override_opt(old(self).behemoth, change.behemoth),
    {
        if let Some(v) = change.min_spawn_time {
            self.min_spawn_time = Some(v);
        }
        if let Some(v) = change.max_spawn_time {
            self.max_spawn_time = Some(v);
        }
        if let Some(v) = change.hopper {
            self.hopper = Some(v);
        }
        if let Some(v) = change.climber {
            self.climber = Some(v);
        }
        if let Some(v) = change.lurker {
            self.lurker = Some(v);
        }
        if let Some(v) = change.diver {
            self.diver = Some(v);
        }
        if let Some(v) = change.giant {
            self.giant = Some(v);
        }
        if let Some(v) = change.behemoth {
            self.behemoth = Some(v);
        }
    }

    /// Applies a whole tick's worth of rates-changed overrides, in the
    /// order they were emitted.
    pub fn apply_all(&mut self, changes: &Vec<SpawnRates>)
        ensures
            *final(self) == apply_fold(*old(self), changes@),
    {
        let ghost all = changes@;
        let mut i: usize = 0;
        proof {
            assert(all.skip(0) =~= all);
        }
        while i < changes.len()
            invariant
                0 <= i <= all.len(),
                changes@ == all,
                apply_fold(*old(self), all) == apply_fold(*self, all.skip(i as int)),
            decreases all.len() - i,
        {
            proof {
                assert(all.skip(i as int).first() == all[i as int]);
                assert(all.skip(i as int).drop_first() =~= all.skip(i + 1));
            }
            self.apply(&changes[i]);
            i = i + 1;
        }
        proof {
            assert(all.skip(all.len() as int) =~= Seq::<SpawnRates>::empty());
        }
    }

    /// Builds a configuration from a content-table record: raw integer
    /// weights are normalized to fixed-point fractions of their own total,
    /// so that the present weights of the result sum to (at most)
    /// `PROB_ONE`; the interval pair is carried over unchanged.
    pub fn normalized(
        min_spawn_time: Option<u64>,
        max_spawn_time: Option<u64>,
        hopper: Option<u64>,
        climber: Option<u64>,
        lurker: Option<u64>,
        diver: Option<u64>,
        giant: Option<u64>,
        behemoth: Option<u64>,
    ) -> (r: SpawnRates)
        requires
            raw_weight(hopper) <= RAW_WEIGHT_MAX,
            raw_weight(climber) <= RAW_WEIGHT_MAX,
            raw_weight(lurker) <= RAW_WEIGHT_MAX,
            raw_weight(diver) <= RAW_WEIGHT_MAX,
            raw_weight(giant) <= RAW_WEIGHT_MAX,
            raw_weight(behemoth) <= RAW_WEIGHT_MAX,
        ensures
            r.min_spawn_time == min_spawn_time,
            r.max_spawn_time == max_spawn_time,
            ({
                let total = raw_weight(hopper) + raw_weight(climber) + raw_weight(lurker)
                    + raw_weight(diver) + raw_weight(giant) + raw_weight(behemoth);
                r.hopper == scaled(hopper, total) && r.climber == scaled(climber, total)
                    && r.lurker == scaled(lurker, total) && r.diver == scaled(diver, total)
                    && r.giant == scaled(giant, total) && r.behemoth == scaled(behemoth, total)
            }),
            r.valid(),
    {
        let total: u64 = hopper.unwrap_or(0) + climber.unwrap_or(0) + lurker.unwrap_or(0)
            + diver.unwrap_or(0) + giant.unwrap_or(0) + behemoth.unwrap_or(0);
        SpawnRates {
            min_spawn_time,
            max_spawn_time,
            hopper: scale_weight(hopper, total),
            climber: scale_weight(climber, total),
            lurker: scale_weight(lurker, total),
            diver: scale_weight(diver, total),
            giant: scale_weight(giant, total),
            behemoth: scale_weight(behemoth, total),
        }
    }
}

/// Scales one raw weight to `raw * PROB_ONE / total`.
fn scale_weight(w: Option<u64>, total: u64) -> (r: Option<u32>)
    requires
        raw_weight(w) <= total,
        total <= 6 * RAW_WEIGHT_MAX,
    ensures
        r == scaled(w, total as int),
        weight(r) <= 1000000,
{
    match w {
        None => None,
        Some(v) => {
            if total == 0 {
                Some(0)
            } else {
                let s: u64 = (v * 1000000) / total;
                proof {
                    lemma_mul_inequality(v as int, total as int, 1000000);
                    lemma_mul_is_commutative(v as int, 1000000);
                    lemma_mul_is_commutative(total as int, 1000000);
                    lemma_multiply_divide_le(v as int * 1000000, total as int, 1000000);
                }
                Some(s as u32)
            }
        },
    }
}

/// For a positive divisor, the sum of two quotients of nonnegative
/// dividends never exceeds the quotient of the sum: rounding down twice
/// loses at least as much as rounding down once.
proof fn lemma_div_sum_le(a: int, b: int, d: int)
    requires
        a >= 0,
        b >= 0,
        d > 0,
    ensures
        a / d + b / d <= (a + b) / d,
{
    let q = a / d + b / d;
    let s = a % d + b % d;
    lemma_fundamental_div_mod(a, d);
    lemma_fundamental_div_mod(b, d);
    lemma_mod_bound(a, d);
    lemma_mod_bound(b, d);
    assert(d * (a / d) + d * (b / d) == d * q) by {
        lemma_mul_is_distributive_add(d, a / d, b / d);
    }
    assert(a + b == s + q * d) by {
        lemma_mul_is_commutative(d, q);
    }
    assert((a + b) / d == s / d + q) by {
        lemma_hoist_over_denominator(s, q, d as nat);
    }
    lemma_div_pos_is_pos(s, d);
}

/// The six weights produced by normalizing a raw record with a positive
/// total sum to at most `PROB_ONE`: the scheduler's "spawn nothing"
/// remainder is never negative.
pub proof fn lemma_normalized_weights_sum(
    hopper: Option<u64>,
    climber: Option<u64>,
    lurker: Option<u64>,
    diver: Option<u64>,
    giant: Option<u64>,
    behemoth: Option<u64>,
)
    requires
        raw_weight(hopper) + raw_weight(climber) + raw_weight(lurker) + raw_weight(diver)
            + raw_weight(giant) + raw_weight(behemoth) > 0,
    ensures
        ({
            let total = raw_weight(hopper) + raw_weight(climber) + raw_weight(lurker) + raw_weight(
            diver) + raw_weight(giant) + raw_weight(behemoth);
            weight(scaled(hopper, total)) + weight(scaled(climber, total)) + weight(scaled(lurker,
            total)) + weight(scaled(diver, total)) + weight(scaled(giant, total)) + weight(scaled(
            behemoth, total)) <= 1000000
        }),
{
    let total = raw_weight(hopper) + raw_weight(climber) + raw_weight(lurker) + raw_weight(diver)
        + raw_weight(giant) + raw_weight(behemoth);
    let a1 = raw_weight(hopper) * 1000000;
    let a2 = raw_weight(climber) * 1000000;
    let a3 = raw_weight(lurker) * 1000000;
    let a4 = raw_weight(diver) * 1000000;
    let a5 = raw_weight(giant) * 1000000;
    let a6 = raw_weight(behemoth) * 1000000;
    assert(weight(scaled(hopper, total)) <= a1 / total) by {
        lemma_scaled_is_quotient(hopper, total);
    }
    assert(weight(scaled(climber, total)) <= a2 / total) by {
        lemma_scaled_is_quotient(climber, total);
    }
    assert(weight(scaled(lurker, total)) <= a3 / total) by {
        lemma_scaled_is_quotient(lurker, total);
    }
    assert(weight(scaled(diver, total)) <= a4 / total) by {
        lemma_scaled_is_quotient(diver, total);
    }
    assert(weight(scaled(giant, total)) <= a5 / total) by {
        lemma_scaled_is_quotient(giant, total);
    }
    assert(weight(scaled(behemoth, total)) <= a6 / total) by {
        lemma_scaled_is_quotient(behemoth, total);
    }
    lemma_div_sum_le(a1, a2, total);
    lemma_div_sum_le(a1 + a2, a3, total);
    lemma_div_sum_le(a1 + a2 + a3, a4, total);
    lemma_div_sum_le(a1 + a2 + a3 + a4, a5, total);
    lemma_div_sum_le(a1 + a2 + a3 + a4 + a5, a6, total);
    assert(a1 + a2 + a3 + a4 + a5 + a6 == 1000000 * total);
    assert((1000000 * total) / total == 1000000) by {
        lemma_mul_is_commutative(1000000, total);
        lemma_div_by_multiple(1000000, total);
    }
}

/// One scaled weight, read as an integer, equals the exact quotient
/// `raw * PROB_ONE / total` (absent weights count as zero on both sides).
proof fn lemma_scaled_is_quotient(w: Option<u64>, total: int)
    requires
        total > 0,
        raw_weight(w) <= total,
    ensures
        weight(scaled(w, total)) == (raw_weight(w) * 1000000) / total,
        weight(scaled(w, total)) >= 0,
{
    match w {
        Option::None => {
            lemma_div_of0(total);
        },
        Option::Some(v) => {
            lemma_div_pos_is_pos(v as int * 1000000, total);
            lemma_mul_inequality(v as int, total, 1000000);
            lemma_mul_is_commutative(v as int, 1000000);
            lemma_mul_is_commutative(total, 1000000);
            lemma_multiply_divide_le(v as int * 1000000, total, 1000000);
        },
    }
}

} // verus!
