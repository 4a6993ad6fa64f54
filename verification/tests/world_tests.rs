//! The world store, the spawn manager and monster AI helpers.

use game_server::ai::{find_nearest_enemy, is_in_attack_range, is_pack_creature, should_flee};
use game_server::components::{
    AIState, Health, MonsterType, Player, Position,
};
use game_server::spawning::{despawn_monster, spawn_monster, SpawnPointManager};
use game_server::world::{EntityRec, World};

#[test]
fn test_should_flee() {
    let high_hp = Health { current: 80, max: 100 };
    let low_hp = Health { current: 20, max: 100 };
    assert!(!should_flee(&high_hp));
    assert!(should_flee(&low_hp));
    // Exactly a quarter does not flee.
    assert!(!should_flee(&Health { current: 25, max: 100 }));
}

#[test]
fn test_pack_creature() {
    assert!(is_pack_creature(MonsterType::GiantRat));
    assert!(is_pack_creature(MonsterType::Wolf));
    assert!(!is_pack_creature(MonsterType::Ogre));
}

#[test]
fn test_spawn_point_manager() {
    let mut manager = SpawnPointManager::new();
    let id1 = manager.add_spawn_point(MonsterType::GiantRat, 100, 100, false);
    let id2 = manager.add_spawn_point(MonsterType::Goblin, 200, 200, false);
    assert_eq!(id1, 0);
    assert_eq!(id2, 1);
    assert_eq!(manager.spawn_points.len(), 2);
}

#[test]
fn test_spawn_monster() {
    let mut world = World::new(100_000_000, 100_000_000);
    let entity = spawn_monster(&mut world, MonsterType::GiantRat, 6_000_000, 6_000_000, false);

    assert!(world.position(entity).is_some());
    assert!(world.health(entity).is_some());
    assert!(world.monster(entity).is_some());
    assert!(world.ai(entity).is_some());

    let pos = world.position(entity).unwrap();
    assert_eq!(pos.x, 6_000_000);
    assert_eq!(pos.y, 6_000_000);
    assert_eq!(world.health(entity).unwrap().current, 7);
}

#[test]
fn test_boss_spawn() {
    let mut world = World::new(100_000_000, 100_000_000);
    let entity = spawn_monster(&mut world, MonsterType::Lich, 6_000_000, 6_000_000, true);
    assert!(world.boss(entity).is_some());
    assert_eq!(world.boss(entity).unwrap().respawn_cooldown_hours, 24);
}

#[test]
fn test_respawn_cooldown() {
    let mut manager = SpawnPointManager::new();
    manager.add_spawn_point(MonsterType::GiantRat, 100, 100, false);
    assert_eq!(manager.spawn_points[0].respawn_cooldown_seconds, 300);

    manager.add_spawn_point(MonsterType::Lich, 200, 200, true);
    assert_eq!(manager.spawn_points[1].respawn_cooldown_seconds, 24 * 3600);
}

#[test]
fn test_initial_spawn() {
    let mut world = World::new(100_000_000, 100_000_000);
    let mut manager = SpawnPointManager::new();
    manager.add_spawn_point(MonsterType::GiantRat, 6_000_000, 6_000_000, false);

    manager.update(&mut world, 0);

    assert!(manager.spawn_points[0].spawned_entity.is_some());
    assert_eq!(manager.spawn_points[0].last_spawn_time, Some(0));
    let entity = manager.spawn_points[0].spawned_entity.unwrap();
    assert!(world.monster(entity).is_some());
}

#[test]
fn test_respawn_waits_for_cooldown() {
    // A monster dies; no replacement appears until 300 seconds passed.
    let mut world = World::new(100_000_000, 100_000_000);
    let mut manager = SpawnPointManager::new();
    manager.add_spawn_point(MonsterType::GiantRat, 6_000_000, 6_000_000, false);
    manager.update(&mut world, 0);
    let first = manager.spawn_points[0].spawned_entity.unwrap();

    // Kill it: the controller enters the terminal state.
    let mut dead_ai = world.ai(first).unwrap();
    dead_ai.state = AIState::Dead;
    assert!(world.set_ai(first, dead_ai));

    let rows_before = world.row_count();
    manager.update(&mut world, 299_999);
    assert_eq!(world.row_count(), rows_before);
    assert_eq!(manager.spawn_points[0].spawned_entity, Some(first));

    manager.update(&mut world, 300_000);
    assert_eq!(world.row_count(), rows_before + 1);
    let second = manager.spawn_points[0].spawned_entity.unwrap();
    assert_ne!(second, first);
    assert!(world.is_alive(second));
}

#[test]
fn test_spawn_records_stay_distinct() {
    // Two records never point at the same entity.
    let mut world = World::new(100_000_000, 100_000_000);
    let mut manager = SpawnPointManager::new();
    manager.add_spawn_point(MonsterType::GiantRat, 6_000_000, 6_000_000, false);
    manager.add_spawn_point(MonsterType::Goblin, 8_000_000, 8_000_000, false);
    manager.update(&mut world, 0);
    let a = manager.spawn_points[0].spawned_entity.unwrap();
    let b = manager.spawn_points[1].spawned_entity.unwrap();
    assert_ne!(a, b);
}

#[test]
fn test_despawn_monster() {
    let mut world = World::new(100_000_000, 100_000_000);
    let entity = spawn_monster(&mut world, MonsterType::Wolf, 6_000_000, 6_000_000, false);
    assert!(world.is_alive(entity));
    despawn_monster(&mut world, entity);
    assert!(!world.is_alive(entity));
    assert!(world.monster(entity).is_none());
    // Despawning again is a harmless no-op.
    despawn_monster(&mut world, entity);
}

#[test]
fn test_find_nearest_enemy_picks_closest() {
    let mut world = World::new(100_000_000, 100_000_000);
    let monster = spawn_monster(&mut world, MonsterType::Wolf, 10_000_000, 10_000_000, false);

    let mut near = EntityRec::empty();
    near.position = Some(Position { x: 11_000_000, y: 10_000_000 });
    near.player = Some(Player { name: "near".to_string(), connection_id: 1 });
    let near_id = world.spawn(near);

    let mut far = EntityRec::empty();
    far.position = Some(Position { x: 20_000_000, y: 10_000_000 });
    far.player = Some(Player { name: "far".to_string(), connection_id: 2 });
    let _far_id = world.spawn(far);

    assert_eq!(find_nearest_enemy(&world, monster), Some(near_id));
    assert!(is_in_attack_range(&world, monster, near_id));
}

#[test]
fn test_spawn_clamps_to_bounds() {
    // A spawn point outside the map still yields an in-bounds monster.
    let mut world = World::new(50_000_000, 50_000_000);
    let e = spawn_monster(&mut world, MonsterType::Goblin, 90_000_000, -5, false);
    let p = world.position(e).unwrap();
    assert_eq!(p.x, 50_000_000);
    assert_eq!(p.y, 0);
}
