//! The rate-over-time table: spawn-rate overrides keyed by elapsed
//! seconds.
//!
//! The table is loaded once at startup; each tick, every remaining key
//! equal to the stopwatch's whole-second count fires a rates-changed
//! override and is removed so it can never fire again. Keys are matched
//! by integer-second equality, not by a range check, so a frame stalled
//! past a full second silently drops the intervening keys; that is an
//! accepted limitation of the engine, preserved here deliberately.

use crate::rates::SpawnRates;
use vstd::arithmetic::div_mod::{lemma_fundamental_div_mod, lemma_mod_bound};
use vstd::prelude::*;

verus! {

/// One table entry: a whole-second key and the partial rates override it
/// fires.
#[derive(PartialEq, Eq, Structural, Clone, Copy, Debug)]
pub struct ScheduleEntry {
    pub at_seconds: u64,
    pub rates: SpawnRates,
}

/// The entries that survive an update at second `now`: everything whose
/// key differs, in their original order.
pub open spec fn remaining_after(entries: Seq<ScheduleEntry>, now: int) -> Seq<ScheduleEntry>
    decreases entries.len(),
{
    if entries.len() == 0 {
        Seq::empty()
    } else {
        let rest = remaining_after(entries.drop_first(), now);
        if entries.first().at_seconds == now {
            rest
        } else {
            seq![entries.first()] + rest
        }
    }
}

/// The overrides an update at second `now` fires: the rates of every
/// entry whose key matches, in their original order.
pub open spec fn fired_at(entries: Seq<ScheduleEntry>, now: int) -> Seq<SpawnRates>
    decreases entries.len(),
{
    if entries.len() == 0 {
        Seq::empty()
    } else {
        let rest = fired_at(entries.drop_first(), now);
        if entries.first().at_seconds == now {
            seq![entries.first().rates] + rest
        } else {
            rest
        }
    }
}

/// No surviving entry carries the key that just fired.
pub proof fn lemma_remaining_has_no_key(entries: Seq<ScheduleEntry>, now: int)
    ensures
        forall|i: int|
            0 <= i < remaining_after(entries, now).len() ==> (#[trigger] remaining_after(
                entries,
                now,
            )[i]).at_seconds != now,
    decreases entries.len(),
{
    if entries.len() > 0 {
        lemma_remaining_has_no_key(entries.drop_first(), now);
    }
}

/// Each key fires at most once: after an update at second `now` has run,
/// a second update at the same second fires nothing.
pub proof fn lemma_key_fires_at_most_once(entries: Seq<ScheduleEntry>, now: int)
    ensures
        fired_at(remaining_after(entries, now), now) =~= Seq::<SpawnRates>::empty(),
    decreases entries.len(),
{
    if entries.len() > 0 {
        lemma_key_fires_at_most_once(entries.drop_first(), now);
        let rest = remaining_after(entries.drop_first(), now);
        if entries.first().at_seconds != now {
            let whole = seq![entries.first()] + rest;
            assert(whole.drop_first() =~= rest);
        }
    }
}

/// Every surviving entry is one of the original entries.
pub proof fn lemma_remaining_is_subset(entries: Seq<ScheduleEntry>, now: int)
    ensures
        forall|i: int|
            0 <= i < remaining_after(entries, now).len() ==> exists|j: int|
                0 <= j < entries.len() && #[trigger] remaining_after(entries, now)[i] == entries[j],
    decreases entries.len(),
{
    if entries.len() > 0 {
        lemma_remaining_is_subset(entries.drop_first(), now);
        let rest = remaining_after(entries.drop_first(), now);
        let whole = remaining_after(entries, now);
        assert forall|i: int| 0 <= i < whole.len() implies exists|j: int|
            0 <= j < entries.len() && #[trigger] whole[i] == entries[j] by {
            if entries.first().at_seconds == now {
                let jr = choose|j: int|
                    0 <= j < entries.drop_first().len() && rest[i] == entries.drop_first()[j];
                assert(whole[i] == entries[jr + 1]);
            } else {
                if i == 0 {
                    assert(whole[i] == entries[0]);
                } else {
                    let jr = choose|j: int|
                        0 <= j < entries.drop_first().len() && rest[i - 1]
                            == entries.drop_first()[j];
                    assert(whole[i] == entries[jr + 1]);
                }
            }
        }
    }
}

/// The loaded schedule: a mutable table of pending overrides.
#[derive(Clone, Debug)]
pub struct RateSchedule {
    pub entries: Vec<ScheduleEntry>,
}

impl RateSchedule {
    /// Keys are pairwise distinct, as in the content table they were
    /// loaded from.
    pub open spec fn wf(self) -> bool {
        forall|i: int, j: int|
            0 <= i < j < self.entries@.len() ==> (#[trigger] self.entries@[i]).at_seconds != (
            #[trigger] self.entries@[j]).at_seconds
    }

    pub fn new() -> (s: RateSchedule)
        ensures
            s.entries@.len() == 0,
            s.wf(),
    {
        RateSchedule { entries: Vec::new() }
    }

    /// Whether the table still holds an entry for `at_seconds`.
    pub fn has_key(&self, at_seconds: u64) -> (b: bool)
        ensures
            b == exists|i: int|
                0 <= i < self.entries@.len() && (#[trigger] self.entries@[i]).at_seconds
                    == at_seconds,
    {
        let mut i: usize = 0;
        while i < self.entries.len()
            invariant
                0 <= i <= self.entries@.len(),
                forall|j: int|
                    0 <= j < i ==> (#[trigger] self.entries@[j]).at_seconds != at_seconds,
            decreases self.entries@.len() - i,
        {
            if self.entries[i].at_seconds == at_seconds {
                return true;
            }
            i = i + 1;
        }
        false
    }

    /// Adds one override under a key not yet present.
    pub fn insert(&mut self, at_seconds: u64, rates: SpawnRates)
        requires
            old(self).wf(),
            !exists|i: int|
                0 <= i < old(self).entries@.len() && (#[trigger] old(
                    self,
                ).entries@[i]).at_seconds == at_seconds,
        ensures
            final(self).wf(),
            final(self).entries@ == old(self).entries@.push(
                ScheduleEntry { at_seconds, rates },
            ),
    {
        self.entries.push(ScheduleEntry { at_seconds, rates });
    }

    /// One schedule tick at whole-second count `now_seconds`: fires the
    /// override of every remaining entry whose key equals it, and removes
    /// those entries so no key ever fires twice. Entries keep their
    /// relative order; no ordering is promised among the overrides that
    /// fire together.
    pub fn update(&mut self, now_seconds: u64) -> (fired: Vec<SpawnRates>)
        ensures
            final(self).entries@ == remaining_after(old(self).entries@, now_seconds as int),
            fired@ == fired_at(old(self).entries@, now_seconds as int),
            forall|i: int|
                0 <= i < final(self).entries@.len() ==> (#[trigger] final(
                    self).entries@[i]).at_seconds != now_seconds,
            old(self).wf() ==> final(self).wf(),
    {
        let ghost all = self.entries@;
        let ghost now = now_seconds as int;
        let mut kept: Vec<ScheduleEntry> = Vec::new();
        let mut fired: Vec<SpawnRates> = Vec::new();
        let mut i: usize = 0;
        proof {
            assert(all.skip(0) =~= all);
            assert(kept@ + remaining_after(all, now) =~= remaining_after(all, now));
            assert(fired@ + fired_at(all, now) =~= fired_at(all, now));
        }
        while i < self.entries.len()
            invariant
                0 <= i <= all.len(),
                self.entries@ == all,
                now == now_seconds as int,
                remaining_after(all, now) =~= kept@ + remaining_after(all.skip(i as int), now),
                fired_at(all, now) =~= fired@ + fired_at(all.skip(i as int), now),
            decreases all.len() - i,
        {
            proof {
                assert(all.skip(i as int).first() == all[i as int]);
                assert(all.skip(i as int).drop_first() =~= all.skip(i + 1));
            }
            let e = self.entries[i];
            if e.at_seconds == now_seconds {
                fired.push(e.rates);
                proof {
                    assert(fired_at(all, now) =~= fired@ + fired_at(all.skip(i + 1), now));
                }
            } else {
                kept.push(e);
                proof {
                    assert(remaining_after(all.skip(i as int), now) =~= seq![all[i as int]]
                        + remaining_after(all.skip(i + 1), now));
                    assert(remaining_after(all, now) =~= kept@ + remaining_after(
                        all.skip(i + 1),
                        now,
                    ));
                }
            }
            i = i + 1;
        }
        proof {
            assert(all.skip(all.len() as int) =~= Seq::empty());
            assert(remaining_after(all, now) =~= kept@);
            assert(fired_at(all, now) =~= fired@);
            lemma_remaining_has_no_key(all, now);
            if old(self).wf() {
                lemma_remaining_distinct(all, now);
            }
        }
        self.entries = kept;
        fired
    }
}

/// Removal keeps keys pairwise distinct: the surviving entries are an
/// order-preserving subsequence of the originals.
proof fn lemma_remaining_distinct(entries: Seq<ScheduleEntry>, now: int)
    requires
        forall|i: int, j: int|
            0 <= i < j < entries.len() ==> (#[trigger] entries[i]).at_seconds != (
            #[trigger] entries[j]).at_seconds,
    ensures
        forall|i: int, j: int|
            0 <= i < j < remaining_after(entries, now).len() ==> (#[trigger] remaining_after(
                entries,
                now,
            )[i]).at_seconds != (#[trigger] remaining_after(entries, now)[j]).at_seconds,
    decreases entries.len(),
{
    if entries.len() > 0 {
        let rest = entries.drop_first();
        assert(forall|i: int, j: int|
            0 <= i < j < rest.len() ==> (#[trigger] rest[i]).at_seconds != (
            #[trigger] rest[j]).at_seconds) by {
            assert(forall|i: int| 0 <= i < rest.len() ==> #[trigger] rest[i] == entries[i + 1]);
        }
        lemma_remaining_distinct(rest, now);
        let whole = remaining_after(entries, now);
        if entries.first().at_seconds != now {
            lemma_remaining_is_subset(rest, now);
            let tail = remaining_after(rest, now);
            assert forall|i: int, j: int| 0 <= i < j < whole.len() implies (
            #[trigger] whole[i]).at_seconds != (#[trigger] whole[j]).at_seconds by {
                if i == 0 {
                    let jr = choose|k: int|
                        0 <= k < rest.len() && tail[j - 1] == #[trigger] rest[k];
                    assert(whole[j] == rest[jr]);
                    assert(entries[0].at_seconds != entries[jr + 1].at_seconds);
                } else {
                    assert(whole[i] == tail[i - 1] && whole[j] == tail[j - 1]);
                }
            }
        }
    }
}

/// Whether a byte is an ASCII decimal digit.
pub open spec fn is_ascii_digit(b: u8) -> bool {
    48 <= b <= 57
}

/// Whether a byte string is entirely decimal digits.
pub open spec fn all_digits(s: Seq<u8>) -> bool {
    forall|i: int| 0 <= i < s.len() ==> is_ascii_digit(#[trigger] s[i])
}

/// The number a digit string denotes in base ten.
pub open spec fn digits_value(s: Seq<u8>) -> int
    decreases s.len(),
{
    if s.len() == 0 {
        0
    } else {
        digits_value(s.drop_last()) * 10 + (s.last() - 48)
    }
}

/// A digit string denotes a nonnegative number.
proof fn lemma_digits_nonneg(s: Seq<u8>)
    requires
        all_digits(s),
    ensures
        digits_value(s) >= 0,
    decreases s.len(),
{
    if s.len() > 0 {
        assert(all_digits(s.drop_last())) by {
            assert(forall|k: int|
                0 <= k < s.drop_last().len() ==> #[trigger] s.drop_last()[k] == s[k]);
        }
        lemma_digits_nonneg(s.drop_last());
        assert(is_ascii_digit(s[s.len() - 1]));
    }
}

/// No prefix of a digit string denotes more than the whole string.
proof fn lemma_digits_prefix_le(s: Seq<u8>, i: int)
    requires
        all_digits(s),
        0 <= i <= s.len(),
    ensures
        0 <= digits_value(s.take(i)) <= digits_value(s),
    decreases s.len() - i,
{
    assert(all_digits(s.take(i))) by {
        assert(forall|k: int| 0 <= k < i ==> #[trigger] s.take(i)[k] == s[k]);
    }
    lemma_digits_nonneg(s.take(i));
    if i < s.len() {
        assert(s.take(i + 1).drop_last() =~= s.take(i));
        assert(s.take(i + 1).last() == s[i]);
        assert(is_ascii_digit(s[i]));
        lemma_digits_prefix_le(s, i + 1);
    } else {
        assert(s.take(i) =~= s);
    }
}

/// Parses a content-table key: the decimal number a byte string denotes,
/// or nothing when the string is empty, holds a non-digit, or denotes a
/// number too large for the schedule clock. Malformed keys are thereby
/// rejected when the table is loaded, not when it fires.
pub fn parse_key(bytes: &Vec<u8>) -> (out: Option<u64>)
    ensures
        (out is Some) == (bytes@.len() > 0 && all_digits(bytes@) && digits_value(bytes@)
            <= u64::MAX),
        out matches Some(v) ==> v == digits_value(bytes@),
{
    if bytes.len() == 0 {
        return None;
    }
    let mut acc: u64 = 0;
    let mut i: usize = 0;
    while i < bytes.len()
        invariant
            0 <= i <= bytes@.len(),
            all_digits(bytes@.take(i as int)),
            acc == digits_value(bytes@.take(i as int)),
        decreases bytes@.len() - i,
    {
        let b = bytes[i];
        proof {
            assert(bytes@.take(i + 1).drop_last() =~= bytes@.take(i as int));
            assert(bytes@.take(i + 1).last() == bytes@[i as int]);
        }
        if b < 48 || b > 57 {
            proof {
                assert(!is_ascii_digit(bytes@[i as int]));
            }
            return None;
        }
        let d = (b - 48) as u64;
        let limit = (u64::MAX - d) / 10;
        proof {
            lemma_fundamental_div_mod(u64::MAX - d, 10);
            lemma_mod_bound(u64::MAX - d, 10);
        }
        if acc > limit {
            proof {
                if all_digits(bytes@) {
                    lemma_digits_prefix_le(bytes@, i + 1);
                }
            }
            return None;
        }
        acc = acc * 10 + d;
        i = i + 1;
    }
    proof {
        assert(bytes@.take(bytes@.len() as int) =~= bytes@);
    }
    Some(acc)
}

} // verus!
