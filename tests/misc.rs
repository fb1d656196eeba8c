use bumper_defense::{
    draw_in, pick_weighted, sample_weighted, Bumper, BumperType, EnemyType, Flasher, FlasherType,
    GhostLayers, Layer, Placement, Tint, Timer, Vec2,
};

#[test]
fn one_shot_timer_stays_finished() {
    let mut t = Timer::new(1_000, false);
    t.tick(600);
    assert!(!t.finished() && !t.just_finished());
    t.tick(600);
    assert!(t.finished() && t.just_finished());
    assert_eq!(t.elapsed(), 1_000);
    t.tick(600);
    assert!(t.finished() && !t.just_finished());
}

#[test]
fn repeating_timer_keeps_remainder() {
    let mut t = Timer::new(1_000, true);
    t.tick(2_500);
    assert!(t.finished() && t.just_finished());
    assert_eq!(t.elapsed(), 500);
    t.tick(100);
    assert!(!t.finished());
    assert_eq!(t.duration(), 1_000);
}

#[test]
fn flasher_grows_and_ends() {
    let mut f = Flasher::new(Vec2::new(1_000, 2_000), FlasherType::EnemyDeath);
    assert_eq!(f.tint, Tint::Pink);
    assert_eq!(f.current_radius(), 9_000);
    f.tick(1_100_000);
    assert_eq!(f.current_radius(), 18_000);
    assert!(!f.done());
    f.tick(1_100_000);
    assert_eq!(f.current_radius(), 27_000);
    assert!(f.done());
}

#[test]
fn bumper_wears_down_and_is_fixed_once() {
    let mut b = Bumper::new(BumperType::Hard);
    assert_eq!((b.life, b.half_length, b.restitution, b.friction), (60, 35_000, 900, 200));
    assert_eq!(b.appearance(), (Tint::Gray, Placement { position: Vec2::new(500_000, 200_000), angle: 0 }));
    b.fix(Vec2::new(300_000, 150_000), 785);
    assert_eq!(b.appearance(), (Tint::Red, Placement { position: Vec2::new(300_000, 150_000), angle: 785 }));
    b.take_damage();
    b.take_damage();
    assert_eq!(b.life, 58);
    let r = Bumper::create_random();
    assert_eq!(r.life, r.initial_life);
    assert!(r.placement.is_none());
}

#[test]
fn weighted_pick_follows_prefix_sums() {
    let w = vec![2u64, 0, 3];
    assert_eq!(pick_weighted(&w, 0), 0);
    assert_eq!(pick_weighted(&w, 1), 0);
    assert_eq!(pick_weighted(&w, 2), 2);
    assert_eq!(pick_weighted(&w, 4), 2);
    for _ in 0..50 {
        assert_ne!(sample_weighted(&w), 1);
    }
}

#[test]
fn draws_stay_in_range() {
    for _ in 0..100 {
        let d = draw_in(10, 13);
        assert!((10..13).contains(&d));
    }
    assert_eq!(draw_in(7, 8), 7);
}

#[test]
fn types_by_index() {
    assert_eq!(EnemyType::from_index(3), EnemyType::Demon);
    assert_eq!(EnemyType::from_index(40), EnemyType::Bouncer);
    assert_eq!(BumperType::from_index(2), BumperType::Bounciest);
    assert_eq!(BumperType::Wood.get_stats().tint, Tint::Maroon);
}

#[test]
fn drawing_depths() {
    assert_eq!(Layer::World.to_z(), 0);
    assert_eq!(Layer::Projectiles.to_z(), 4);
    assert_eq!(Layer::Explosions.to_z(), 5);
    assert_eq!(GhostLayers::LifeBars.to_z(), 50);
}

#[test]
fn repeating_timer_counts_several_periods() {
    let mut t = Timer::new(1_000, true);
    t.tick(3_999);
    assert!(t.just_finished());
    assert_eq!(t.elapsed(), 999);
    let mut o = Timer::new(1_000, false);
    o.tick(5_000);
    assert_eq!(o.elapsed(), 1_000);
    assert!(o.finished());
}

#[test]
fn zero_period_one_shot_finishes_at_once() {
    let mut t = Timer::new(0, false);
    t.tick(0);
    assert!(t.finished() && t.just_finished());
}
