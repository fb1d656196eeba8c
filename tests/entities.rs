use bumper_defense::{
    Enemy, EnemyDirection, EnemyType, LandEffect, Lifebar, Projectile, ProjectileType, ShootResult,
    Tint, Vec2,
};

#[test]
fn enemy_stats_by_type() {
    let e = Enemy::from_parts(EnemyType::Demon, 200_000, EnemyDirection::Left);
    assert_eq!(e.life(), 100);
    assert_eq!(e.initial_life(), 100);
    assert_eq!(e.bullets(), 100);
    assert_eq!(e.tint(), Tint::Red);
    assert_eq!(e.direction(), EnemyDirection::Left);
}

#[test]
fn random_enemy_stop_point_in_range() {
    for _ in 0..50 {
        let e = Enemy::create_random();
        assert!(e.life() == e.initial_life());
        let start = e.start_position();
        assert!(start.y >= 100_000 && start.y < 560_000);
        assert!(start.x == -30_000 || start.x == 1_030_000);
    }
}

#[test]
fn enemy_life_never_rises_and_death_means_no_life() {
    let mut e = Enemy::from_parts(EnemyType::Weak, 200_000, EnemyDirection::Right);
    let mut last = e.life();
    for d in [10u64, 0, 30, 40, 5] {
        e.take_damage(d);
        assert!(e.life() <= last);
        last = e.life();
        if e.is_dead() {
            assert!(e.life() <= 0);
        }
    }
    assert_eq!(e.life(), -10);
    assert!(e.is_dead());
    assert!(e.done());
    assert!(e.get_lifebar().is_none());
}

#[test]
fn dead_enemy_passes() {
    let mut e = Enemy::from_parts(EnemyType::Weak, 200_000, EnemyDirection::Right);
    e.take_damage(75);
    assert!(matches!(e.shoot(Vec2::new(300_000, 50_000)), ShootResult::Pass));
    assert_eq!(e.bullets(), 50);
}

#[test]
fn enemy_fires_from_muzzle_and_spends_a_bullet() {
    let mut e = Enemy::from_parts(EnemyType::Medium, 200_000, EnemyDirection::Right);
    match e.shoot(Vec2::new(300_000, 50_000)) {
        ShootResult::Fire(p) => {
            assert_eq!(p.origin(), Vec2::new(314_000, 60_000));
            assert_eq!(p.bounces(), 2);
            assert_eq!(p.explosions(), 1);
        }
        _ => panic!("expected a shot"),
    }
    assert_eq!(e.bullets(), 49);
    let mut l = Enemy::from_parts(EnemyType::Medium, 200_000, EnemyDirection::Left);
    match l.shoot(Vec2::new(700_000, 50_000)) {
        ShootResult::Fire(p) => assert_eq!(p.origin(), Vec2::new(686_000, 60_000)),
        _ => panic!("expected a shot"),
    }
}

#[test]
fn enemy_without_ammunition_goes_away() {
    let mut e = Enemy::from_parts(EnemyType::Weak, 200_000, EnemyDirection::Right);
    for _ in 0..50 {
        assert!(matches!(e.shoot(Vec2::new(300_000, 50_000)), ShootResult::Fire(_)));
    }
    assert_eq!(e.bullets(), 0);
    match e.shoot(Vec2::new(300_000, 50_000)) {
        ShootResult::GoAway(v) => assert_eq!(v, Vec2::new(-100_000, 0)),
        _ => panic!("expected to leave"),
    }
    // Not done until it has left the screen on its own side.
    e.adjust_velocity(Vec2::new(-20_000, 50_000), Vec2::new(-100_000, 0));
    assert!(!e.done());
    e.adjust_velocity(Vec2::new(-30_001, 50_000), Vec2::new(-100_000, 0));
    assert!(e.done());
}

#[test]
fn enemy_brakes_past_its_stop_point() {
    let mut e = Enemy::from_parts(EnemyType::Weak, 200_000, EnemyDirection::Right);
    // Before the stop point the velocity stays.
    assert_eq!(e.adjust_velocity(Vec2::new(100_000, 50_000), Vec2::new(100_000, 0)), Some(Vec2::new(100_000, 0)));
    assert_eq!(e.location(), Vec2::new(100_000, 50_000));
    // Past it, 3% slower per call.
    assert_eq!(e.adjust_velocity(Vec2::new(200_001, 50_000), Vec2::new(100_000, 0)), Some(Vec2::new(97_000, 0)));
    // Under the threshold it stops.
    assert_eq!(e.adjust_velocity(Vec2::new(210_000, 50_000), Vec2::new(82, 0)), None);
    // Leftward enemies brake too, by speed.
    let mut l = Enemy::from_parts(EnemyType::Weak, 200_000, EnemyDirection::Left);
    assert_eq!(l.adjust_velocity(Vec2::new(900_000, 50_000), Vec2::new(-100_000, 0)), Some(Vec2::new(-100_000, 0)));
    assert_eq!(l.adjust_velocity(Vec2::new(799_999, 50_000), Vec2::new(-100_000, 0)), Some(Vec2::new(-97_000, 0)));
    assert_eq!(l.adjust_velocity(Vec2::new(790_000, 50_000), Vec2::new(-50, 0)), None);
}

#[test]
fn enemy_fire_timer_repeats() {
    let mut e = Enemy::from_parts(EnemyType::Bouncer, 200_000, EnemyDirection::Right);
    assert!(!e.ready(500_000));
    assert!(e.ready(300_000));
    assert!(!e.ready(100_000));
    assert!(e.ready(1_000_000));
}

#[test]
fn enemy_lifebar_tracks_life() {
    let mut e = Enemy::from_parts(EnemyType::Demon, 200_000, EnemyDirection::Right);
    e.adjust_velocity(Vec2::new(100_000, 50_000), Vec2::new(100_000, 0));
    let bar = e.get_lifebar().unwrap();
    assert_eq!(bar.origin, Vec2::new(80_000, 74_000));
    assert_eq!(bar.length(), 15_000);
    assert_eq!(bar.color(), Tint::Green);
    e.take_damage(60);
    let bar = e.get_lifebar().unwrap();
    assert_eq!(bar.length(), 6_000);
    assert_eq!(bar.color(), Tint::Orange);
    e.take_damage(35);
    let bar = e.get_lifebar().unwrap();
    assert_eq!(bar.length(), 1_000);
    assert_eq!(bar.color(), Tint::Red);
}

#[test]
fn lifebar_length_is_clamped() {
    let bar = Lifebar::new(Vec2::new(0, 0), 1, 10_000);
    assert_eq!(bar.length(), 1_000);
    assert_eq!(bar.origin, Vec2::new(-10_000, 12_000));
}

#[test]
fn projectile_budgets_only_shrink() {
    let mut p = Projectile::new(Vec2::new(0, 100_000), ProjectileType::HotShot);
    assert_eq!(p.radius(), 3_500);
    assert_eq!((p.bounces(), p.explosions()), (4, 2));
    let mut last = (p.bounces(), p.explosions());
    for _ in 0..6 {
        let effect = p.touch_ground();
        assert!(p.bounces() <= last.0 && p.explosions() <= last.1);
        if last.0 == 0 {
            assert_eq!(effect, LandEffect::Explode);
        } else {
            assert_eq!(effect, LandEffect::Bounce);
        }
        last = (p.bounces(), p.explosions());
    }
    assert_eq!(p.bounces(), 0);
    assert!(!p.done());
    let first = p.explode(Vec2::new(10_000, 0)).unwrap();
    assert_eq!(first.damage, 40);
    assert_eq!(first.location, Vec2::new(10_000, 0));
    assert!(!p.done());
    assert!(p.explode(Vec2::new(10_000, 0)).is_some());
    assert!(p.done());
    assert_eq!(p.explosions(), 0);
    assert!(p.explode(Vec2::new(10_000, 0)).is_none());
    assert!(p.done());
}

#[test]
fn projectile_lifetime_forces_final_explosion() {
    let mut p = Projectile::new(Vec2::new(0, 100_000), ProjectileType::MiniShot);
    assert!(p.tick(7_999_999, Vec2::new(5_000, 5_000)).is_none());
    assert_eq!(p.explosions(), 4);
    let e = p.tick(1, Vec2::new(5_000, 5_000)).unwrap();
    assert_eq!(e.radius, 7_000);
    assert_eq!(e.damage, 8);
    assert_eq!(p.explosions(), 0);
    assert!(p.done());
}

#[test]
fn projectile_run_out_leaves_one_explosion() {
    let mut p = Projectile::new(Vec2::new(0, 100_000), ProjectileType::MiniShot);
    assert!(!p.run_out(1_000_000));
    assert_eq!(p.explosions(), 4);
    assert!(p.run_out(7_000_000));
    assert_eq!(p.explosions(), 1);
}

#[test]
fn projectile_aims_at_tower() {
    let p = Projectile::new(Vec2::new(0, 0), ProjectileType::WeakShot);
    // Gravity 450, v = 300: t = 2 * 300 / 450 s; 500 units in that time.
    assert_eq!(p.launch_velocity(300_000), Vec2::new(375_000, 300_000));
    for _ in 0..20 {
        let v = p.calculate_velocity();
        assert!(v.y >= 80_000 && v.y < 400_000);
        assert!(v.x > 0);
    }
}
