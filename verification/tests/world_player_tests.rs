use last_stanza::enemy_projectile::projectile_should_despawn;
use last_stanza::facing::Facing;
use last_stanza::player::{
    aim_position, launch_speed, launch_velocity, projectile_should_explode, ContactTag,
    PlayerProjectile,
};
use last_stanza::units::Vec2i;
use last_stanza::world::{world_layout, RectKind};

#[test]
fn facing_converts_to_multiplier_and_flip() {
    assert_eq!(Facing::Left.sign(), 1);
    assert_eq!(Facing::Right.sign(), -1);
    assert!(!Facing::Left.flipped());
    assert!(Facing::Right.flipped());
}

#[test]
fn layout_has_ground_steps_and_sensors() {
    let v = world_layout();
    assert_eq!(v.len(), 9);
    let ground = v[0];
    assert_eq!(ground.kind, RectKind::Ground);
    assert_eq!((ground.cx, ground.cy, ground.w, ground.h), (0, -3000, 100000, 6000));
    // Bottom step and its sensor.
    let step0 = v[1];
    assert_eq!(step0.kind, RectKind::Step);
    assert_eq!((step0.cy, step0.w, step0.h), (1000, 22000, 2000));
    let cliff0 = v[2];
    assert_eq!(cliff0.kind, RectKind::CliffSensor);
    assert_eq!((cliff0.cy, cliff0.w, cliff0.h), (500, 23500, 10));
    // The steps narrow going up; the topmost is a thin cap.
    let step1 = v[3];
    assert_eq!((step1.cy, step1.w), (3000, 15600));
    let step2 = v[5];
    assert_eq!((step2.cy, step2.w), (5000, 9200));
    let step3 = v[7];
    assert_eq!((step3.cy, step3.w), (7000, 1000));
    let cliff3 = v[8];
    assert_eq!((cliff3.cy, cliff3.w), (6500, 2500));
}

#[test]
fn fresh_projectile_charges_from_smallest_size() {
    let p = PlayerProjectile::new();
    assert_eq!(p.size, 1);
    assert!(p.charging);
    assert_eq!(p.timeout.duration_ms, 3000);
    assert_eq!(p.charge.duration_ms, 10000);
}

#[test]
fn charging_adopts_curve_sample_and_grows_collider() {
    let mut p = PlayerProjectile::new();
    let radius = p.charge_tick(16, 3);
    assert_eq!(p.size, 3);
    assert_eq!(radius, 650);
    let radius = p.charge_tick(16, 5);
    assert_eq!(p.size, 5);
    assert_eq!(radius, 750);
    assert_eq!(p.charge.elapsed_ms, 32);
}

#[test]
fn launch_speed_grows_with_charge() {
    assert_eq!(launch_speed(1), 7000);
    assert_eq!(launch_speed(2), 16425);
    assert_eq!(launch_speed(3), 20286);
    assert_eq!(launch_speed(4), 21989);
    assert_eq!(launch_speed(5), 22910);
    for s in 1..5 {
        assert!(launch_speed(s) < launch_speed(s + 1));
    }
}

#[test]
fn launch_velocity_scales_the_aim_direction() {
    let v = launch_velocity(Vec2i { x: 600, y: -800 }, 1);
    assert_eq!(v, Vec2i { x: 4200, y: -5600 });
    let v = launch_velocity(Vec2i { x: 0, y: 1000 }, 5);
    assert_eq!(v, Vec2i { x: 0, y: 22910 });
}

#[test]
fn charging_projectile_is_held_along_the_aim() {
    let pos = aim_position(Vec2i { x: 0, y: 1000 });
    assert_eq!(pos, Vec2i { x: 0, y: 10750 });
    let pos = aim_position(Vec2i { x: -1000, y: 0 });
    assert_eq!(pos, Vec2i { x: -2000, y: 8750 });
}

#[test]
fn released_projectile_times_out() {
    let mut p = PlayerProjectile::new();
    p.release();
    assert!(!p.charging);
    // The timeout is checked before it is advanced, so the projectile
    // survives one extra tick past its window.
    assert!(!p.timeout_tick(2999));
    assert!(!p.timeout_tick(1));
    assert!(p.timeout_tick(16));
}

#[test]
fn projectile_explodes_only_on_enemy_contact() {
    assert!(!projectile_should_explode(&Vec::new()));
    assert!(!projectile_should_explode(&vec![
        ContactTag::Ground,
        ContactTag::EnemyProjectile,
    ]));
    assert!(projectile_should_explode(&vec![
        ContactTag::Ground,
        ContactTag::Enemy,
    ]));
}

#[test]
fn enemy_projectile_despawns_on_any_contact() {
    assert!(!projectile_should_despawn(0));
    assert!(projectile_should_despawn(1));
    assert!(projectile_should_despawn(3));
}
