use last_stanza::rates::SpawnRates;
use last_stanza::scheduler::{select_archetype, Archetype, SpawnScheduler};
use rand::rngs::StdRng;
use rand::{Rng, SeedableRng};

fn scenario_rates() -> SpawnRates {
    SpawnRates {
        min_spawn_time: Some(1000),
        max_spawn_time: Some(1001),
        hopper: Some(600000),
        climber: Some(100000),
        lurker: None,
        diver: None,
        giant: Some(50000),
        behemoth: None,
    }
}

#[test]
fn draw_of_point_three_selects_hopper() {
    let rates = scenario_rates();
    assert_eq!(select_archetype(&rates, 300000), Some(Archetype::Hopper));
}

#[test]
fn draw_of_point_sixty_five_selects_climber() {
    let rates = scenario_rates();
    assert_eq!(select_archetype(&rates, 650000), Some(Archetype::Climber));
}

#[test]
fn draw_of_point_nine_selects_nothing() {
    let rates = scenario_rates();
    assert_eq!(select_archetype(&rates, 900000), None);
}

#[test]
fn boundary_draw_at_weight_selects() {
    let rates = scenario_rates();
    assert_eq!(select_archetype(&rates, 600000), Some(Archetype::Hopper));
    assert_eq!(select_archetype(&rates, 600001), Some(Archetype::Climber));
    assert_eq!(select_archetype(&rates, 700000), Some(Archetype::Climber));
    assert_eq!(select_archetype(&rates, 700001), Some(Archetype::Giant));
    assert_eq!(select_archetype(&rates, 750000), Some(Archetype::Giant));
    assert_eq!(select_archetype(&rates, 750001), None);
}

#[test]
fn all_zero_weights_spawn_nothing() {
    let rates = SpawnRates::default();
    for r in [0u32, 1, 500000, 999999] {
        assert_eq!(select_archetype(&rates, r), None);
    }
    let zeroed = SpawnRates {
        hopper: Some(0),
        climber: Some(0),
        lurker: Some(0),
        diver: Some(0),
        giant: Some(0),
        behemoth: Some(0),
        ..SpawnRates::default()
    };
    assert_eq!(select_archetype(&zeroed, 0), None);
}

#[test]
fn empirical_distribution_matches_weights() {
    // Ten thousand uniform draws against the scenario weights: each
    // archetype's share must sit within a comfortable sampling tolerance
    // of its configured weight.
    let rates = scenario_rates();
    let mut rng = StdRng::seed_from_u64(421);
    let n = 10000u32;
    let mut hopper = 0u32;
    let mut climber = 0u32;
    let mut giant = 0u32;
    let mut nothing = 0u32;
    for _ in 0..n {
        let r: u32 = rng.gen_range(0..1000000);
        match select_archetype(&rates, r) {
            Some(Archetype::Hopper) => hopper += 1,
            Some(Archetype::Climber) => climber += 1,
            Some(Archetype::Giant) => giant += 1,
            Some(Archetype::Lurker) => panic!("lurker weight is zero"),
            None => nothing += 1,
        }
    }
    // Expected: 6000 / 1000 / 500 / 2500, sigma at most ~49.
    assert!((5700..=6300).contains(&hopper), "hopper count {hopper}");
    assert!((800..=1200).contains(&climber), "climber count {climber}");
    assert!((350..=650).contains(&giant), "giant count {giant}");
    assert!((2200..=2800).contains(&nothing), "nothing count {nothing}");
}

#[test]
fn scheduler_does_not_fire_before_interval() {
    let rates = scenario_rates();
    let mut s = SpawnScheduler::new();
    let out = s.run_cycle(&rates, 999);
    assert_eq!(out.spawn, None);
    assert_eq!(out.draw, None);
    assert_eq!(out.interval_ms, None);
}

#[test]
fn scheduler_fires_and_rearms_on_elapse() {
    let rates = scenario_rates();
    let mut s = SpawnScheduler::new();
    let out = s.run_cycle(&rates, 1000);
    // The scenario fixes the redrawn interval at one second.
    assert_eq!(out.interval_ms, Some(1000));
    let r = out.draw.expect("the elapsed timer must draw");
    assert!(r < 1000000);
    assert_eq!(out.spawn, select_archetype(&rates, r));
}

#[test]
fn invalid_interval_range_skips_cycle() {
    let rates = SpawnRates {
        min_spawn_time: Some(2000),
        max_spawn_time: Some(1000),
        hopper: Some(1000000),
        ..SpawnRates::default()
    };
    let mut s = SpawnScheduler::new();
    let out = s.run_cycle(&rates, 5000);
    assert_eq!(out.spawn, None);
    assert_eq!(out.draw, None);
    assert_eq!(out.interval_ms, None);
}

#[test]
fn unset_interval_range_skips_cycle() {
    let rates = SpawnRates {
        hopper: Some(1000000),
        ..SpawnRates::default()
    };
    let mut s = SpawnScheduler::new();
    let out = s.run_cycle(&rates, 1000);
    assert_eq!(out.spawn, None);
    assert_eq!(out.interval_ms, None);
}

#[test]
fn scheduler_reads_live_rates() {
    // A rates override between cycles must be honored by the next cycle:
    // with the whole weight on Lurker the scheduler can only spawn
    // lurkers or nothing.
    let mut rates = scenario_rates();
    let mut s = SpawnScheduler::new();
    let _ = s.run_cycle(&rates, 1000);
    rates.hopper = Some(0);
    rates.climber = Some(0);
    rates.giant = Some(0);
    rates.lurker = Some(1000000);
    for _ in 0..20 {
        let out = s.run_cycle(&rates, 1000);
        match out.spawn {
            None | Some(Archetype::Lurker) => {}
            other => panic!("unexpected spawn {other:?}"),
        }
    }
}
