use bumper_defense::{
    classify, Body, BodyKind, BumperAction, CollisionEvent, Interaction, Projectile, ProjectileSlot,
    ProjectileType, Session, Shot, Vec2,
};

const MAX_TTL: u64 = 8_000_000;

fn slot(id: u64, t: ProjectileType, just_landed: bool) -> ProjectileSlot {
    let origin = Vec2::new(300_000, 100_000);
    ProjectileSlot { id, projectile: Projectile::new(origin, t), location: origin, just_landed, exploded: false }
}

fn contact(a: BodyKind, a_id: u64, b: BodyKind, b_id: u64) -> CollisionEvent {
    CollisionEvent { first: Body { kind: a, id: a_id }, second: Body { kind: b, id: b_id }, started: true }
}

#[test]
fn landed_and_expired_projectile_ends_exploded() {
    let mut s = Session::new(1_000_000);
    s.projectiles.push(slot(7, ProjectileType::BigShot, true));
    let gone = s.post_collision(MAX_TTL);
    assert_eq!(gone.len(), 1);
    assert_eq!(gone[0].id, 7);
    assert!(s.projectiles.is_empty());
    assert_eq!(s.explosions.len(), 1);
    assert_eq!(s.explosions.get(0).damage, 15);
}

#[test]
fn landed_and_expired_projectile_without_bounces_ends_exploded() {
    let mut s = Session::new(1_000_000);
    let mut p = slot(3, ProjectileType::HotShot, true);
    while p.projectile.bounces() > 0 {
        p.projectile.touch_ground();
    }
    s.projectiles.push(p);
    let gone = s.post_collision(MAX_TTL);
    assert_eq!(gone.len(), 1);
    assert!(s.projectiles.is_empty());
    assert_eq!(s.explosions.len(), 1);
}

#[test]
fn landing_bounces_then_explodes() {
    let mut s = Session::new(1_000_000);
    s.projectiles.push(slot(1, ProjectileType::WeakShot, true));
    assert!(s.post_collision(10_000).is_empty());
    assert_eq!(s.projectiles[0].projectile.bounces(), 0);
    assert_eq!(s.explosions.len(), 0);
    s.projectiles[0].just_landed = true;
    let gone = s.post_collision(10_000);
    assert_eq!(gone.len(), 1);
    assert_eq!(s.explosions.len(), 1);
    // The registry holds only this tick's explosions.
    assert!(s.post_collision(10_000).is_empty());
    assert_eq!(s.explosions.len(), 0);
}

#[test]
fn explosion_damages_enemies_and_tower() {
    let mut s = Session::new(1_000_000);
    let spawn = loop {
        if let Some(e) = s.spawn_enemy(1_000_000) {
            break e;
        }
    };
    assert_eq!(s.enemies.len(), 1);
    assert_eq!(s.spawner.enemy_count(), 1);
    assert_eq!(s.enemies[0].id, spawn.id);
    s.manage_enemy_movement(0, Vec2::new(495_000, 40_000), Vec2::new(1_000, 0));
    let life = s.enemies[0].enemy.life();
    let mut p = slot(99, ProjectileType::HotShot, false);
    p.location = Vec2::new(500_000, 30_000);
    p.exploded = true;
    s.projectiles.push(p);
    s.post_collision(1_000);
    assert_eq!(s.enemies[0].enemy.life(), life - 40);
    assert_eq!(s.tower.as_ref().unwrap().life(), 10_000 - 40);
    // The projectile keeps its second explosion.
    assert_eq!(s.projectiles.len(), 1);
    assert_eq!(s.projectiles[0].projectile.explosions(), 1);
    assert!(!s.flashes.is_empty());
}

#[test]
fn dead_enemies_are_despawned_once() {
    let mut s = Session::new(1_000);
    while s.enemies.len() < 2 {
        s.spawn_enemy(1_000);
    }
    let id = s.enemies[1].id;
    s.enemies[1].enemy.take_damage(1_000);
    let gone = s.despawn_enemy();
    assert_eq!(gone.len(), 1);
    assert_eq!(gone[0].id, id);
    assert_eq!(s.enemies.len(), 1);
    assert_eq!(s.spawner.enemy_count(), 1);
    assert!(s.despawn_enemy().is_empty());
}

#[test]
fn stopped_enemy_shoots_then_leaves() {
    let mut s = Session::new(1_000);
    while s.enemies.is_empty() {
        s.spawn_enemy(1_000);
    }
    assert_eq!(s.shoot(0, 10_000_000), Shot::Hold);
    s.enemies[0].moving = true;
    // Far past either stop point, at a crawl: the enemy stops.
    let x = 500_000;
    let r = s.manage_enemy_movement(0, Vec2::new(x, 40_000), Vec2::new(50, 0));
    if r.is_none() {
        assert!(s.enemies[0].shooter);
        let shot = s.shoot(0, 10_000_000);
        match shot {
            Shot::Fired { id, origin, velocity } => {
                assert_eq!(s.projectiles.len(), 1);
                assert_eq!(s.projectiles[0].id, id);
                assert_eq!(s.projectiles[0].location, origin);
                assert!(velocity.y >= 80_000);
            }
            other => panic!("unexpected {:?}", other),
        }
    }
}

#[test]
fn collisions_tag_projectiles_and_bumpers() {
    let mut s = Session::new(1_000);
    s.projectiles.push(slot(1, ProjectileType::WeakShot, false));
    s.projectiles.push(slot(2, ProjectileType::WeakShot, false));
    s.projectiles.push(slot(3, ProjectileType::WeakShot, false));
    assert_eq!(s.spawn_or_place_bumper(Vec2::new(0, 0), 0), BumperAction::Spawned);
    let placed = s.spawn_or_place_bumper(Vec2::new(400_000, 100_000), 250);
    let bumper_id = match placed {
        BumperAction::Placed(id) => id,
        _ => panic!("expected a placement"),
    };
    assert!(s.floating.is_none());
    let life = s.bumpers[0].bumper.life;
    let events = vec![
        contact(BodyKind::Projectile, 1, BodyKind::Tower, 0),
        contact(BodyKind::Floor, 0, BodyKind::Projectile, 2),
        contact(BodyKind::Bumper, bumper_id, BodyKind::Projectile, 3),
        contact(BodyKind::Projectile, 2, BodyKind::Projectile, 3),
    ];
    s.collision_dectector(&events);
    assert!(s.projectiles[0].exploded && !s.projectiles[0].just_landed);
    assert!(s.projectiles[1].just_landed && !s.projectiles[1].exploded);
    assert!(!s.projectiles[2].just_landed && !s.projectiles[2].exploded);
    assert!(s.bumpers[0].activated);
    s.activated_system();
    assert_eq!(s.bumpers[0].bumper.life, life - 1);
    assert!(!s.bumpers[0].activated);
}

#[test]
fn classification_order_and_ended_contacts() {
    let hit = contact(BodyKind::Enemy, 4, BodyKind::Projectile, 9);
    assert_eq!(classify(&hit), Interaction::ProjectileExploded(9));
    let ended = CollisionEvent { started: false, ..hit };
    assert_eq!(classify(&ended), Interaction::Ignored);
    let landed = contact(BodyKind::Projectile, 5, BodyKind::Floor, 1);
    assert_eq!(classify(&landed), Interaction::ProjectileLanded(5));
    let bumped = contact(BodyKind::Projectile, 5, BodyKind::Bumper, 8);
    assert_eq!(classify(&bumped), Interaction::BumperActivated(8));
    let other = contact(BodyKind::Enemy, 1, BodyKind::Tower, 2);
    assert_eq!(classify(&other), Interaction::Ignored);
}

#[test]
fn stray_projectiles_are_cleaned_up() {
    let mut s = Session::new(1_000);
    s.projectiles.push(slot(1, ProjectileType::WeakShot, false));
    s.projectiles.push(slot(2, ProjectileType::WeakShot, false));
    s.observe_projectile(1, Vec2::new(1_200_000, 50_000));
    let gone = s.despawner();
    assert_eq!(gone.len(), 1);
    assert_eq!(gone[0].id, 2);
    assert_eq!(s.projectiles.len(), 1);
    assert_eq!(s.projectiles[0].id, 1);
}

#[test]
fn tower_is_removed_when_destroyed() {
    let mut s = Session::new(1_000);
    let mut t = s.tower.unwrap();
    t.take_damage(9_990);
    s.tower = Some(t);
    let mut p = slot(5, ProjectileType::WeakShot, false);
    p.location = Vec2::new(500_000, 30_000);
    p.exploded = true;
    s.projectiles.push(p);
    s.post_collision(1_000);
    assert!(s.tower.is_none());
}

#[test]
fn death_flash_is_requested_once() {
    let mut s = Session::new(1_000);
    while s.enemies.is_empty() {
        s.spawn_enemy(1_000);
    }
    s.manage_enemy_movement(0, Vec2::new(500_000, 30_000), Vec2::new(1_000, 0));
    let life = s.enemies[0].enemy.life();
    s.enemies[0].enemy.take_damage((life - 1) as u64);
    s.tower = None;
    let mut p = slot(1, ProjectileType::MiniShot, false);
    p.location = Vec2::new(500_000, 30_000);
    p.exploded = true;
    s.projectiles.push(p);
    s.post_collision(1_000);
    assert!(s.enemies[0].enemy.is_dead());
    assert_eq!(s.flashes.len(), 2);
    s.clear_flashes();
    // Hit again while already dead: no second death flash.
    s.projectiles[0].exploded = true;
    s.post_collision(1_000);
    assert_eq!(s.flashes.len(), 1);
}

#[test]
fn stray_enemies_leave_through_the_spawner() {
    let mut s = Session::new(1_000);
    while s.enemies.len() < 2 {
        s.spawn_enemy(1_000);
    }
    let id = s.enemies[0].id;
    s.manage_enemy_movement(0, Vec2::new(-150_000, 30_000), Vec2::new(1_000, 0));
    let gone = s.despawner();
    assert_eq!(gone.len(), 1);
    assert_eq!(gone[0].id, id);
    assert_eq!(s.enemies.len(), 1);
    assert_eq!(s.spawner.enemy_count(), 1);
}
