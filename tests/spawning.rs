use bumper_defense::Spawner;

#[test]
fn spawner_respects_cap_and_frees_a_place_on_despawn() {
    let mut s = Spawner::with_cap(1_000_000, 2);
    assert!(s.spawn_if_ready(1_000_000).is_some());
    assert!(s.spawn_if_ready(1_000_000).is_some());
    assert!(s.spawn_if_ready(1_000_000).is_none());
    assert_eq!(s.enemy_count(), 2);
    assert_eq!(s.enemies_spawned(), 2);
    s.despawn();
    assert_eq!(s.enemy_count(), 1);
    assert_eq!(s.enemies_spawned(), 2);
    assert!(s.spawn_if_ready(1_000_000).is_some());
    assert_eq!(s.enemy_count(), 2);
    assert_eq!(s.enemies_spawned(), 3);
}

#[test]
fn spawner_waits_for_its_cooldown() {
    let mut s = Spawner::new(1_000_000);
    assert_eq!(s.cap(), 15);
    assert!(s.spawn_if_ready(400_000).is_none());
    assert!(s.spawn_if_ready(400_000).is_none());
    assert!(s.spawn_if_ready(400_000).is_some());
    assert!(s.spawn_if_ready(100_000).is_none());
    assert_eq!(s.enemy_count(), 1);
}

#[test]
fn spawner_with_zero_cap_never_spawns() {
    let mut s = Spawner::with_cap(1_000, 0);
    for _ in 0..5 {
        assert!(s.spawn_if_ready(1_000).is_none());
    }
    assert_eq!(s.enemies_spawned(), 0);
}
