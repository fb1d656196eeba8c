use bumper_defense::{ActiveExplosions, Explosion, ExplosionType, FlasherType, Tower, Vec2};

fn blast(x: i64, y: i64, radius: i64, damage: u64) -> Explosion {
    Explosion { location: Vec2::new(x, y), damage, radius, flasher_type: FlasherType::WeakShot }
}

#[test]
fn damage_to_circle_counts_overlapping_explosions() {
    let mut active = ActiveExplosions::new();
    active.add(blast(0, 0, 10_000, 5));
    // Distance 15 < 10 + 6.
    assert_eq!(active.damage_to_circle(Vec2::new(15_000, 0), 6_000), Some(5));
    // Distance 20 >= 10 + 5.
    assert_eq!(active.damage_to_circle(Vec2::new(20_000, 0), 5_000), None);
    // Touching exactly is no hit.
    assert_eq!(active.damage_to_circle(Vec2::new(15_000, 0), 5_000), None);
}

#[test]
fn damage_to_circle_sums_all_hits() {
    let mut active = ActiveExplosions::new();
    active.add(blast(0, 0, 10_000, 5));
    active.add(blast(3_000, 4_000, 1_000, 7));
    active.add(blast(500_000, 0, 10_000, 100));
    // Distance 5 to the second explosion: reached with radius 4.001, not 4.
    assert_eq!(active.damage_to_circle(Vec2::new(0, 0), 4_001), Some(12));
    assert_eq!(active.damage_to_circle(Vec2::new(0, 0), 4_000), Some(5));
    assert_eq!(active.len(), 3);
}

#[test]
fn damage_to_circle_on_empty_registry_is_none() {
    let active = ActiveExplosions::new();
    assert_eq!(active.damage_to_circle(Vec2::new(0, 0), 10_000), None);
}

#[test]
fn zero_damage_hit_gives_some_zero() {
    let mut active = ActiveExplosions::new();
    active.add(blast(0, 0, 10_000, 0));
    assert_eq!(active.damage_to_circle(Vec2::new(0, 0), 10_000), Some(0));
    assert_eq!(active.damage_to_circle(Vec2::new(50_000, 0), 10_000), None);
    assert_eq!(active.damage_to_rect(Vec2::new(-1_000, 1_000), Vec2::new(1_000, -1_000)), Some(0));
    assert_eq!(active.damage_to_rect(Vec2::new(20_000, 1_000), Vec2::new(30_000, -1_000)), None);
}

#[test]
fn huge_damage_is_capped() {
    let mut active = ActiveExplosions::new();
    active.add(blast(0, 0, 10_000, u64::MAX));
    active.add(blast(0, 0, 10_000, 3));
    assert_eq!(active.damage_to_circle(Vec2::new(0, 0), 10_000), Some(u64::MAX));
}

#[test]
fn clear_empties_registry() {
    let mut active = ActiveExplosions::new();
    active.add(blast(0, 0, 10_000, 5));
    active.clear();
    assert_eq!(active.len(), 0);
    assert_eq!(active.damage_to_circle(Vec2::new(0, 0), 10_000), None);
}

#[test]
fn damage_to_rect_tests_overlap() {
    let mut active = ActiveExplosions::new();
    active.add(blast(0, 0, 5_000, 9));
    // Rectangle from (3, 10) to (20, -10): the disc reaches x = 5 > 3.
    assert_eq!(active.damage_to_rect(Vec2::new(3_000, 10_000), Vec2::new(20_000, -10_000)), Some(9));
    // Rectangle from (6, 10) to (20, -10): no overlap.
    assert_eq!(active.damage_to_rect(Vec2::new(6_000, 10_000), Vec2::new(20_000, -10_000)), None);
    // Rectangle far above.
    assert_eq!(active.damage_to_rect(Vec2::new(-10_000, 50_000), Vec2::new(10_000, 30_000)), None);
}

#[test]
fn explosion_stats_come_from_type() {
    let e = Explosion::new(Vec2::new(1_000, 2_000), ExplosionType::HotShot);
    assert_eq!(e.radius, 15_000);
    assert_eq!(e.damage, 40);
    assert_eq!(e.flasher_type, FlasherType::HotShot);
    assert_eq!(e.location, Vec2::new(1_000, 2_000));
    let f = e.get_flasher();
    assert_eq!(f.radius, 15_000);
    assert_eq!(f.location, Vec2::new(1_000, 2_000));
}

#[test]
fn tower_takes_rectangle_damage() {
    let mut tower = Tower::new();
    assert_eq!(tower.life(), 10_000);
    assert_eq!(tower.translation(), Vec2::new(500_000, 45_000));
    let (top_left, bottom_right) = tower.as_rect();
    assert_eq!(top_left, Vec2::new(492_500, 62_500));
    assert_eq!(bottom_right, Vec2::new(507_500, 27_500));
    let mut active = ActiveExplosions::new();
    active.add(Explosion::new(Vec2::new(500_000, 20_000), ExplosionType::HugeShot));
    let d = active.damage_to_rect(top_left, bottom_right).unwrap();
    assert_eq!(d, 20);
    tower.take_damage(d);
    assert_eq!(tower.life(), 9_980);
    assert!(!tower.is_dead());
    tower.take_damage(9_980);
    assert!(tower.is_dead());
    assert!(tower.get_lifebar().is_none());
}

#[test]
fn tower_life_stops_at_minimum() {
    let mut tower = Tower::new();
    tower.take_damage(u64::MAX);
    assert_eq!(tower.life(), i64::MIN);
    assert!(tower.is_dead());
}
