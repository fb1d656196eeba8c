use bumper_defense::{EnemyStats, EnemyType, ProjectileStats, ProjectileType, RECORD_LEN};

#[test]
fn every_projectile_stats_record_round_trips() {
    for t in [
        ProjectileType::WeakShot,
        ProjectileType::BigShot,
        ProjectileType::HugeShot,
        ProjectileType::HotShot,
        ProjectileType::MiniShot,
    ] {
        let stats = t.get_stats();
        let bytes = stats.to_bytes();
        assert_eq!(bytes.len(), RECORD_LEN);
        let back = ProjectileStats::from_bytes(&bytes).unwrap();
        assert_eq!(back, stats);
        assert_eq!((back.radius, back.bounces, back.explosions), (stats.radius, stats.bounces, stats.explosions));
    }
}

#[test]
fn every_enemy_stats_record_round_trips() {
    for t in [EnemyType::Weak, EnemyType::Medium, EnemyType::Hard, EnemyType::Demon, EnemyType::Bouncer] {
        let stats = t.get_stats();
        let back = EnemyStats::from_bytes(&stats.to_bytes()).unwrap();
        assert_eq!(back, stats);
        assert_eq!((back.life, back.bullets), (stats.life, stats.bullets));
    }
}

#[test]
fn record_layout_is_little_endian() {
    let bytes = ProjectileType::BigShot.get_stats().to_bytes();
    // Radius 3600 = 0x0e10.
    assert_eq!(&bytes[0..8], &[0x10, 0x0e, 0, 0, 0, 0, 0, 0]);
    assert_eq!(bytes[8], 2);
    assert_eq!(bytes[16], 1);
    assert_eq!(bytes[24], 0);
    assert_eq!(bytes[25], 1);
}

#[test]
fn negative_life_round_trips() {
    let mut stats = EnemyType::Weak.get_stats();
    stats.life = -5;
    let bytes = stats.to_bytes();
    assert_eq!(bytes[0], 0xfb);
    assert_eq!(EnemyStats::from_bytes(&bytes).unwrap().life, -5);
}

#[test]
fn malformed_records_are_rejected() {
    let bytes = ProjectileType::WeakShot.get_stats().to_bytes();
    assert!(ProjectileStats::from_bytes(&bytes[..25]).is_none());
    let mut bad_kind = bytes.clone();
    bad_kind[25] = 9;
    assert!(ProjectileStats::from_bytes(&bad_kind).is_none());
    let mut bad_flag = bytes.clone();
    bad_flag[24] = 2;
    assert!(ProjectileStats::from_bytes(&bad_flag).is_none());
    let enemy = EnemyType::Hard.get_stats().to_bytes();
    let mut bad_tint = enemy.clone();
    bad_tint[25] = 11;
    assert!(EnemyStats::from_bytes(&bad_tint).is_none());
    assert!(EnemyStats::from_bytes(&[]).is_none());
}
