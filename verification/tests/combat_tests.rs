use last_stanza::combat::{
    apply_hits, death_check, resolve_combat, Enemy, Explosion, ExplosionSpawn, Hit,
};
use last_stanza::facing::Facing;

#[test]
fn default_enemy_is_fresh() {
    let e = Enemy::default();
    assert_eq!(e.health, 1);
    assert_eq!(e.facing, Facing::Left);
}

#[test]
fn simultaneous_projectile_and_explosion_accumulate() {
    // An actor with health 3 hit by a projectile of size 2 and an
    // explosion of power 5 in the same tick ends the tick at health -4
    // and triggers one explosion of power 4.
    let mut e = Enemy {
        health: 3,
        facing: Facing::Left,
    };
    let hits = vec![Hit::Projectile { size: 2 }, Hit::Explosion { power: 5 }];
    let out = resolve_combat(&mut e, &hits, 1200, 3400);
    assert_eq!(e.health, -4);
    assert_eq!(
        out,
        Some(ExplosionSpawn {
            power: 4,
            x: 1200,
            y: 3400
        })
    );
}

#[test]
fn exact_zero_health_still_dies_once() {
    let mut e = Enemy {
        health: 2,
        facing: Facing::Right,
    };
    let hits = vec![Hit::Projectile { size: 2 }];
    let out = resolve_combat(&mut e, &hits, 0, 0);
    assert_eq!(e.health, 0);
    assert_eq!(out, Some(ExplosionSpawn { power: 0, x: 0, y: 0 }));
}

#[test]
fn surviving_actor_spawns_no_explosion() {
    let mut e = Enemy {
        health: 20,
        facing: Facing::Left,
    };
    let hits = vec![Hit::Projectile { size: 5 }, Hit::Projectile { size: 3 }];
    let out = resolve_combat(&mut e, &hits, 7, 8);
    assert_eq!(e.health, 12);
    assert_eq!(out, None);
}

#[test]
fn no_hits_change_nothing() {
    let mut e = Enemy {
        health: 5,
        facing: Facing::Left,
    };
    apply_hits(&mut e, &Vec::new());
    assert_eq!(e.health, 5);
    assert_eq!(death_check(&e, 0, 0), None);
}

#[test]
fn explosion_power_is_abs_health_at_death() {
    let e = Enemy {
        health: -7,
        facing: Facing::Right,
    };
    let out = death_check(&e, -16000, 1000);
    assert_eq!(
        out,
        Some(ExplosionSpawn {
            power: 7,
            x: -16000,
            y: 1000
        })
    );
}

#[test]
fn explosion_extent_is_zeroed_one_tick_before_removal() {
    let spawn = ExplosionSpawn {
        power: 4,
        x: 0,
        y: 0,
    };
    let mut ex = Explosion::new(&spawn);
    // At creation the collider covers the blast radius.
    assert_eq!(ex.extent, 4000);
    assert_eq!(ex.power, 4);
    // The first lifecycle tick zeroes the collider but keeps the
    // explosion alive.
    let despawn = ex.tick(100);
    assert!(!despawn);
    assert_eq!(ex.extent, 0);
    // The tick that completes the lifetime removes it; the collider has
    // been at zero extent since the first tick.
    let despawn = ex.tick(400);
    assert!(despawn);
    assert_eq!(ex.extent, 0);
}

#[test]
fn explosion_lifetime_is_half_a_second() {
    let spawn = ExplosionSpawn {
        power: 1,
        x: 0,
        y: 0,
    };
    let mut ex = Explosion::new(&spawn);
    assert!(!ex.tick(499));
    assert!(ex.tick(1));
}
