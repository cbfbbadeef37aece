//! Tests for map generation, visibility, monster decisions and player
//! movement on concrete dungeons.

use dungeon_core::components::Position;
use dungeon_core::map::{
    apply_horizontal_corridor, apply_room_to_map, apply_vertical_corridor, new_map_rooms_and_corridors,
    new_map_test, xy_idx, GameMap, Rect, TileType,
};
use dungeon_core::map_indexing_system::MapIndexingSystem;
use dungeon_core::menu::backpack_items;
use dungeon_core::monster_ai_system::MonsterAI;
use dungeon_core::player::try_move_player;
use dungeon_core::rng::Rng;
use dungeon_core::spawner;
use dungeon_core::visibility_system::VisibilitySystem;
use dungeon_core::world::World;

/// An all-floor arena with a solid border, ready for movement tests.
fn arena() -> World {
    let mut w = World::new();
    for x in 1..79 {
        for y in 1..49 {
            w.map.tiles[xy_idx(x, y)] = TileType::Floor;
        }
    }
    w
}

#[test]
fn carving_helpers_set_floor() {
    let mut tiles = GameMap::new().tiles;
    let room = Rect::new(5, 5, 4, 3);
    apply_room_to_map(&room, &mut tiles);
    for x in 5..=9 {
        for y in 5..=8 {
            assert_eq!(tiles[xy_idx(x, y)], TileType::Floor);
        }
    }
    assert_eq!(tiles[xy_idx(4, 5)], TileType::Wall);
    assert_eq!(tiles[xy_idx(10, 5)], TileType::Wall);
    apply_horizontal_corridor(&mut tiles, 20, 30, 12);
    for x in 20..=30 {
        assert_eq!(tiles[xy_idx(x, 12)], TileType::Floor);
    }
    apply_vertical_corridor(&mut tiles, 12, 20, 30);
    for y in 12..=20 {
        assert_eq!(tiles[xy_idx(30, y)], TileType::Floor);
    }
}

#[test]
fn generated_map_has_walkable_rooms() {
    let mut rng = Rng::new(7);
    let m = new_map_rooms_and_corridors(&mut rng);
    assert!(!m.rooms.is_empty());
    assert!(m.rooms.len() <= 30);
    for room in &m.rooms {
        assert!(room.x1 >= 0 && room.x2 < 80 && room.y1 >= 0 && room.y2 < 50);
        for x in room.x1..=room.x2 {
            for y in room.y1..=room.y2 {
                assert_eq!(m.tiles[xy_idx(x, y)], TileType::Floor);
            }
        }
    }
    let (cx, cy) = m.rooms[0].center();
    assert_eq!(m.tiles[xy_idx(cx, cy)], TileType::Floor);
    for i in 0..m.rooms.len() {
        for j in 0..m.rooms.len() {
            if i != j {
                assert!(!m.rooms[i].intersect(&m.rooms[j]));
            }
        }
    }
}

#[test]
fn test_map_keeps_boundaries_and_centre() {
    let mut rng = Rng::new(99);
    let tiles = new_map_test(&mut rng);
    for x in 0..80 {
        assert_eq!(tiles[xy_idx(x, 0)], TileType::Wall);
        assert_eq!(tiles[xy_idx(x, 49)], TileType::Wall);
    }
    for y in 0..50 {
        assert_eq!(tiles[xy_idx(0, y)], TileType::Wall);
        assert_eq!(tiles[xy_idx(79, y)], TileType::Wall);
    }
    assert_eq!(tiles[xy_idx(40, 25)], TileType::Floor);
}

#[test]
fn visibility_sees_open_ground_but_not_behind_walls() {
    let mut w = arena();
    spawner::player(&mut w, 10, 10);
    // A wall segment between the player and (14, 10).
    w.map.tiles[xy_idx(12, 10)] = TileType::Wall;
    VisibilitySystem::run(&mut w);
    let vs = w.viewsheds[0].as_ref().unwrap();
    assert!(!vs.dirty);
    assert!(vs.visible_tiles.contains(&Position { x: 10, y: 10 }));
    assert!(vs.visible_tiles.contains(&Position { x: 11, y: 10 }));
    // The wall itself is visible, what lies straight behind it is not.
    assert!(vs.visible_tiles.contains(&Position { x: 12, y: 10 }));
    assert!(!vs.visible_tiles.contains(&Position { x: 13, y: 10 }));
    assert!(!vs.visible_tiles.contains(&Position { x: 14, y: 10 }));
    // Out of range (sight range 8).
    assert!(!vs.visible_tiles.contains(&Position { x: 10, y: 19 }));
    // The player's viewshed drives the map overlay.
    assert!(w.map.visible_tiles[xy_idx(11, 10)]);
    assert!(w.map.revealed_tiles[xy_idx(11, 10)]);
    assert!(!w.map.visible_tiles[xy_idx(14, 10)]);
}

#[test]
fn adjacent_monster_attacks_player() {
    let mut w = arena();
    spawner::player(&mut w, 10, 10);
    spawner::goblin(&mut w, 11, 11);
    VisibilitySystem::run(&mut w);
    MapIndexingSystem::run(&mut w);
    MonsterAI::run(&mut w);
    assert_eq!(w.wants_melee[1], Some(0));
    assert_eq!(w.positions[1], Some(Position { x: 11, y: 11 }));
}

#[test]
fn distant_monster_steps_along_greatest_axis() {
    let mut w = arena();
    spawner::player(&mut w, 10, 10);
    spawner::goblin(&mut w, 17, 12);
    VisibilitySystem::run(&mut w);
    MapIndexingSystem::run(&mut w);
    MonsterAI::run(&mut w);
    // Delta is (-7, -2): the x axis dominates, so the goblin steps west.
    assert_eq!(w.wants_melee[1], None);
    assert_eq!(w.positions[1], Some(Position { x: 16, y: 12 }));
    assert!(w.viewsheds[1].as_ref().unwrap().dirty);
}

#[test]
fn monster_without_sight_stands_still() {
    let mut w = arena();
    spawner::player(&mut w, 10, 10);
    spawner::goblin(&mut w, 70, 40);
    VisibilitySystem::run(&mut w);
    MapIndexingSystem::run(&mut w);
    MonsterAI::run(&mut w);
    assert_eq!(w.wants_melee[1], None);
    assert_eq!(w.positions[1], Some(Position { x: 70, y: 40 }));
}

#[test]
fn player_move_blocked_by_wall_and_attacks_occupant() {
    let mut w = arena();
    spawner::player(&mut w, 10, 10);
    spawner::orc(&mut w, 11, 10);
    w.map.tiles[xy_idx(10, 9)] = TileType::Wall;
    MapIndexingSystem::run(&mut w);
    // North is a wall: no move.
    try_move_player(0, -1, &mut w);
    assert_eq!(w.player_pos, Position { x: 10, y: 10 });
    // East holds the orc: attack instead of moving.
    try_move_player(1, 0, &mut w);
    assert_eq!(w.wants_melee[0], Some(1));
    assert_eq!(w.player_pos, Position { x: 10, y: 10 });
    // West is open floor: move, and the viewshed goes dirty.
    w.wants_melee[0] = None;
    try_move_player(-1, 0, &mut w);
    assert_eq!(w.player_pos, Position { x: 9, y: 10 });
    assert_eq!(w.positions[0], Some(Position { x: 9, y: 10 }));
    assert!(w.viewsheds[0].as_ref().unwrap().dirty);
}

#[test]
fn backpack_enumeration_lists_carried_items() {
    let mut w = World::new();
    spawner::player(&mut w, 10, 10);
    spawner::health_potion_to_backpack(&mut w, 0);
    spawner::health_potion(&mut w, 5, 5);
    spawner::health_potion_to_backpack(&mut w, 0);
    assert_eq!(backpack_items(&w, 0), vec![1, 3]);
    assert_eq!(backpack_items(&w, 2), Vec::<usize>::new());
}

#[test]
fn spawned_room_stays_within_entity_budget() {
    let mut w = World::new();
    spawner::player(&mut w, 10, 10);
    let mut rng = Rng::new(3);
    let room = Rect::new(5, 5, 8, 8);
    spawner::spawn_room(&mut w, &mut rng, &room);
    assert!(w.alive.len() <= 7);
    for e in 1..w.alive.len() {
        if let Some(p) = w.positions[e] {
            assert!(p.x >= room.x1 && p.x <= room.x2);
            assert!(p.y >= room.y1 && p.y <= room.y2);
        }
    }
}
