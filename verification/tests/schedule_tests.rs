use last_stanza::rates::SpawnRates;
use last_stanza::schedule::{parse_key, RateSchedule};
use last_stanza::timer::{Countdown, Stopwatch};

fn hopper_override(weight: u32) -> SpawnRates {
    SpawnRates {
        hopper: Some(weight),
        ..SpawnRates::default()
    }
}

#[test]
fn key_fires_exactly_once_at_its_second() {
    // A key of 10 must fire exactly once, only when the stopwatch's
    // whole-second count equals 10, and be gone from the table after.
    let mut schedule = RateSchedule::new();
    schedule.insert(10, hopper_override(800000));
    let mut watch = Stopwatch::new();
    let mut fired_total = 0;
    // 12 simulated seconds in 16 ms frames.
    let frames = 12 * 1000 / 16;
    let mut fired_at_second = None;
    for _ in 0..frames {
        watch.tick(16);
        let fired = schedule.update(watch.whole_seconds());
        if !fired.is_empty() {
            assert_eq!(fired.len(), 1);
            assert_eq!(fired[0].hopper, Some(800000));
            fired_at_second = Some(watch.whole_seconds());
        }
        fired_total += fired.len();
    }
    assert_eq!(fired_total, 1);
    assert_eq!(fired_at_second, Some(10));
    assert!(!schedule.has_key(10));
}

#[test]
fn update_before_the_key_leaves_it_pending() {
    let mut schedule = RateSchedule::new();
    schedule.insert(10, hopper_override(800000));
    assert!(schedule.update(9).is_empty());
    assert!(schedule.has_key(10));
}

#[test]
fn second_update_at_same_second_fires_nothing() {
    let mut schedule = RateSchedule::new();
    schedule.insert(10, hopper_override(800000));
    assert_eq!(schedule.update(10).len(), 1);
    assert!(schedule.update(10).is_empty());
}

#[test]
fn other_keys_survive_an_update() {
    let mut schedule = RateSchedule::new();
    schedule.insert(5, hopper_override(100000));
    schedule.insert(10, hopper_override(200000));
    let fired = schedule.update(5);
    assert_eq!(fired.len(), 1);
    assert_eq!(fired[0].hopper, Some(100000));
    assert!(!schedule.has_key(5));
    assert!(schedule.has_key(10));
}

#[test]
fn stalled_frame_past_a_second_drops_the_key() {
    // Keys are matched by integer-second equality, not a range check: a
    // frame stalled past a whole second silently skips the key. This is
    // an accepted limitation of the engine, asserted here deliberately.
    let mut schedule = RateSchedule::new();
    schedule.insert(3, hopper_override(100000));
    let mut watch = Stopwatch::new();
    watch.tick(2900);
    assert!(schedule.update(watch.whole_seconds()).is_empty());
    // The stalled frame jumps from second 2 to second 4.
    watch.tick(1200);
    assert_eq!(watch.whole_seconds(), 4);
    assert!(schedule.update(watch.whole_seconds()).is_empty());
    assert!(schedule.has_key(3));
}

#[test]
fn parse_key_accepts_decimal_digits() {
    assert_eq!(parse_key(&b"10".to_vec()), Some(10));
    assert_eq!(parse_key(&b"0".to_vec()), Some(0));
    assert_eq!(parse_key(&b"007".to_vec()), Some(7));
    assert_eq!(
        parse_key(&b"18446744073709551615".to_vec()),
        Some(u64::MAX)
    );
}

#[test]
fn parse_key_rejects_malformed_keys() {
    assert_eq!(parse_key(&b"".to_vec()), None);
    assert_eq!(parse_key(&b"1a".to_vec()), None);
    assert_eq!(parse_key(&b"-3".to_vec()), None);
    assert_eq!(parse_key(&b"1.5".to_vec()), None);
    assert_eq!(parse_key(&b"18446744073709551616".to_vec()), None);
}

#[test]
fn normalization_scales_raw_weights_to_fractions() {
    let r = SpawnRates::normalized(
        Some(500),
        Some(2000),
        Some(8),
        Some(2),
        None,
        None,
        None,
        None,
    );
    assert_eq!(r.min_spawn_time, Some(500));
    assert_eq!(r.max_spawn_time, Some(2000));
    assert_eq!(r.hopper, Some(800000));
    assert_eq!(r.climber, Some(200000));
    assert_eq!(r.lurker, None);
    assert_eq!(r.giant, None);
}

#[test]
fn normalization_rounds_down_and_never_oversums() {
    let r = SpawnRates::normalized(
        None,
        None,
        Some(1),
        Some(1),
        Some(1),
        None,
        None,
        None,
    );
    assert_eq!(r.hopper, Some(333333));
    assert_eq!(r.climber, Some(333333));
    assert_eq!(r.lurker, Some(333333));
    let total = r.all();
    assert!(total <= 1000000);
}

#[test]
fn normalization_with_zero_total_zeroes_present_weights() {
    let r = SpawnRates::normalized(Some(100), Some(200), Some(0), None, Some(0), None, None, None);
    assert_eq!(r.hopper, Some(0));
    assert_eq!(r.climber, None);
    assert_eq!(r.lurker, Some(0));
}

#[test]
fn override_applies_only_present_fields() {
    let mut rates = SpawnRates {
        min_spawn_time: Some(1000),
        max_spawn_time: Some(2000),
        hopper: Some(600000),
        ..SpawnRates::default()
    };
    let change = SpawnRates {
        hopper: Some(100000),
        climber: Some(50000),
        ..SpawnRates::default()
    };
    rates.apply(&change);
    assert_eq!(rates.hopper, Some(100000));
    assert_eq!(rates.climber, Some(50000));
    assert_eq!(rates.min_spawn_time, Some(1000));
    assert_eq!(rates.max_spawn_time, Some(2000));
}

#[test]
fn later_overrides_win() {
    let mut rates = SpawnRates::default();
    let changes = vec![hopper_override(100000), hopper_override(300000)];
    rates.apply_all(&changes);
    assert_eq!(rates.hopper, Some(300000));
}

#[test]
fn repeating_countdown_wraps_its_remainder() {
    let mut t = Countdown::new(1000, true);
    assert!(!t.tick(999));
    assert!(t.tick(301));
    assert_eq!(t.elapsed_ms, 300);
    assert!(!t.finished());
}

#[test]
fn one_shot_countdown_stays_finished() {
    let mut t = Countdown::new(500, false);
    assert!(!t.tick(499));
    assert!(t.tick(1));
    assert!(t.finished());
    assert!(t.tick(1));
    t.reset();
    assert!(!t.finished());
}

#[test]
fn set_duration_rearms_a_repeating_timer() {
    let mut t = Countdown::new(1000, true);
    assert!(t.tick(1500));
    assert_eq!(t.elapsed_ms, 500);
    t.set_duration(700);
    assert!(t.tick(200));
    assert_eq!(t.elapsed_ms, 0);
}

#[test]
fn stopwatch_counts_whole_seconds() {
    let mut w = Stopwatch::new();
    w.tick(999);
    assert_eq!(w.whole_seconds(), 0);
    w.tick(1);
    assert_eq!(w.whole_seconds(), 1);
    w.tick(8500);
    assert_eq!(w.whole_seconds(), 9);
}
