//! Scenario tests for the turn-resolution core: combat, damage, mortality,
//! inventory, indexing and the run-state machine, on concrete worlds.

use dungeon_core::components::Position;
use dungeon_core::damage_system::{delete_the_dead, DamageSystem};
use dungeon_core::game_log::LogEntry;
use dungeon_core::inventory_system::{ItemCollectionSystem, ItemDropSystem, PotionUseSystem};
use dungeon_core::map::xy_idx;
use dungeon_core::map_indexing_system::MapIndexingSystem;
use dungeon_core::melee_combat_system::MeleeCombatSystem;
use dungeon_core::rng::Rng;
use dungeon_core::spawner;
use dungeon_core::state::{Command, MenuResult, RunState, State};
use dungeon_core::world::World;

/// A world with the player at (10, 10) and one monster at the given spot.
fn world_with_monster(mx: i32, my: i32) -> World {
    let mut w = World::new();
    spawner::player(&mut w, 10, 10);
    spawner::orc(&mut w, mx, my);
    w
}

#[test]
fn xy_idx_is_row_major() {
    assert_eq!(xy_idx(0, 0), 0);
    assert_eq!(xy_idx(79, 0), 79);
    assert_eq!(xy_idx(0, 1), 80);
    assert_eq!(xy_idx(42, 0), 42);
    assert_eq!(xy_idx(79, 49), 3999);
}

#[test]
fn melee_logged_damage_is_power_minus_defense() {
    // Player power 5 attacks orc defense 1: damage 4, hp 16 -> 12.
    let mut w = world_with_monster(11, 10);
    let player = w.player_entity;
    w.wants_melee[player] = Some(1);
    MeleeCombatSystem::run(&mut w);
    DamageSystem::run(&mut w);
    assert_eq!(w.suffer_damage[1].len(), 0);
    assert_eq!(w.combat_stats[1].unwrap().hp, 12);
    assert_eq!(
        w.log.entries.last().copied(),
        Some(LogEntry::Attack { attacker: player, target: 1, amount: 4 })
    );
    assert_eq!(w.wants_melee[player], None);
}

#[test]
fn melee_attack_against_tough_defense() {
    // Attacker power 5 against defense 2: logged damage 3, hp falls by 3.
    let mut w = world_with_monster(11, 10);
    let player = w.player_entity;
    let hp_before = w.combat_stats[player].unwrap().hp;
    // The orc (power 4) gets its defense raised to 2 and attacks a target
    // with power 5 / defense 2: use the monster attacking the player.
    let mut stats = w.combat_stats[1].unwrap();
    stats.power = 5;
    w.combat_stats[1] = Some(stats);
    w.wants_melee[1] = Some(player);
    MeleeCombatSystem::run(&mut w);
    assert_eq!(
        w.log.entries.last().copied(),
        Some(LogEntry::Attack { attacker: 1, target: player, amount: 3 })
    );
    DamageSystem::run(&mut w);
    assert_eq!(w.combat_stats[player].unwrap().hp, hp_before - 3);
}

#[test]
fn zero_damage_logs_but_enqueues_nothing() {
    let mut w = world_with_monster(11, 10);
    let player = w.player_entity;
    // Weaken the orc so its power cannot beat the player's defense.
    let mut stats = w.combat_stats[1].unwrap();
    stats.power = 1;
    w.combat_stats[1] = Some(stats);
    w.wants_melee[1] = Some(player);
    let log_before = w.log.entries.len();
    MeleeCombatSystem::run(&mut w);
    assert_eq!(w.suffer_damage[player].len(), 0);
    assert_eq!(w.log.entries.len(), log_before + 1);
    assert_eq!(
        w.log.entries.last().copied(),
        Some(LogEntry::NoDamage { attacker: 1, target: player })
    );
}

#[test]
fn damage_application_subtracts_exact_sum_and_clears() {
    let mut w = world_with_monster(11, 10);
    w.suffer_damage[1] = vec![3, 5, 2];
    DamageSystem::run(&mut w);
    assert_eq!(w.combat_stats[1].unwrap().hp, 16 - 10);
    assert_eq!(w.suffer_damage[1].len(), 0);
    // An accumulator without statistics is cleared too.
    let mut w2 = world_with_monster(11, 10);
    spawner::health_potion(&mut w2, 5, 5);
    w2.suffer_damage[2] = vec![7];
    DamageSystem::run(&mut w2);
    assert_eq!(w2.suffer_damage[2].len(), 0);
}

#[test]
fn indexer_blocks_tile_of_blocking_entity() {
    // One blocking entity on tile 42 = (42, 0); the monster carries
    // BlocksTile, the player does not block.
    let mut w = World::new();
    spawner::player(&mut w, 10, 10);
    spawner::orc(&mut w, 42, 0);
    // Carve the whole map to floor so only the occupant blocks.
    for t in 0..4000 {
        w.map.tiles[t] = dungeon_core::map::TileType::Floor;
    }
    MapIndexingSystem::run(&mut w);
    assert!(w.map.blocked[42]);
    assert_eq!(w.map.tile_content[42], vec![1]);
    for t in 0..4000 {
        if t != 42 {
            assert!(!w.map.blocked[t], "tile {} wrongly blocked", t);
        }
    }
    assert_eq!(w.map.tile_content[xy_idx(10, 10)], vec![0]);
}

#[test]
fn indexer_is_idempotent() {
    let mut w = world_with_monster(30, 20);
    MapIndexingSystem::run(&mut w);
    let blocked_once = w.map.blocked.clone();
    let content_once = w.map.tile_content.clone();
    MapIndexingSystem::run(&mut w);
    assert_eq!(w.map.blocked, blocked_once);
    assert_eq!(w.map.tile_content, content_once);
}

#[test]
fn pickup_then_drop_round_trip() {
    let mut w = World::new();
    spawner::player(&mut w, 10, 10);
    spawner::health_potion(&mut w, 10, 10);
    let player = w.player_entity;
    // Pick the potion up: it loses its position and lands in the backpack.
    w.wants_pickup[player] = Some(1);
    ItemCollectionSystem::run(&mut w);
    assert_eq!(w.positions[1], None);
    assert_eq!(w.in_backpack[1], Some(player));
    assert_eq!(
        w.log.entries.last().copied(),
        Some(LogEntry::PickedUp { by: player, item: 1 })
    );
    // Drop it again: it lands at the player's exact coordinates.
    w.wants_drop[player] = Some(1);
    ItemDropSystem::run(&mut w);
    assert_eq!(w.positions[1], Some(Position { x: 10, y: 10 }));
    assert_eq!(w.in_backpack[1], None);
    assert_eq!(
        w.log.entries.last().copied(),
        Some(LogEntry::Dropped { by: player, item: 1 })
    );
    // And picking it back up restores the backpack link with the same owner.
    w.wants_pickup[player] = Some(1);
    ItemCollectionSystem::run(&mut w);
    assert_eq!(w.positions[1], None);
    assert_eq!(w.in_backpack[1], Some(player));
}

#[test]
fn potion_drink_is_clamped_at_max_hp() {
    // Drinking a +8 potion at hp 25/30 yields 30, not 33.
    let mut w = World::new();
    spawner::player(&mut w, 10, 10);
    spawner::health_potion_to_backpack(&mut w, 0);
    let player = w.player_entity;
    let mut stats = w.combat_stats[player].unwrap();
    stats.hp = 25;
    w.combat_stats[player] = Some(stats);
    w.wants_drink[player] = Some(1);
    PotionUseSystem::run(&mut w);
    assert_eq!(w.combat_stats[player].unwrap().hp, 30);
    assert_eq!(
        w.log.entries.last().copied(),
        Some(LogEntry::Drank { who: player, potion: 1, amount: 8 })
    );
    assert_eq!(w.to_delete, vec![1]);
    w.maintain();
    assert!(!w.alive[1]);
    assert_eq!(w.to_delete.len(), 0);
}

#[test]
fn potion_drink_heals_from_low_hp() {
    // Drinking a +8 potion at hp 10/30 yields 18.
    let mut w = World::new();
    spawner::player(&mut w, 10, 10);
    spawner::health_potion_to_backpack(&mut w, 0);
    let player = w.player_entity;
    let mut stats = w.combat_stats[player].unwrap();
    stats.hp = 10;
    w.combat_stats[player] = Some(stats);
    w.wants_drink[player] = Some(1);
    PotionUseSystem::run(&mut w);
    assert_eq!(w.combat_stats[player].unwrap().hp, 18);
}

#[test]
fn stale_potion_reference_is_a_no_op() {
    let mut w = World::new();
    spawner::player(&mut w, 10, 10);
    spawner::orc(&mut w, 11, 10);
    let player = w.player_entity;
    // Entity 1 is no potion: the intent is silently dropped.
    w.wants_drink[player] = Some(1);
    let hp_before = w.combat_stats[player].unwrap().hp;
    let log_before = w.log.entries.len();
    PotionUseSystem::run(&mut w);
    assert_eq!(w.combat_stats[player].unwrap().hp, hp_before);
    assert_eq!(w.log.entries.len(), log_before);
    assert_eq!(w.wants_drink[player], None);
    assert_eq!(w.to_delete.len(), 0);
}

#[test]
fn dead_monster_is_deleted_dead_player_is_retained() {
    let mut w = world_with_monster(11, 10);
    let player = w.player_entity;
    let mut mstats = w.combat_stats[1].unwrap();
    mstats.hp = 0;
    w.combat_stats[1] = Some(mstats);
    let mut pstats = w.combat_stats[player].unwrap();
    pstats.hp = 0;
    w.combat_stats[player] = Some(pstats);
    delete_the_dead(&mut w);
    assert!(!w.alive[1]);
    assert_eq!(w.combat_stats[1], None);
    assert_eq!(w.log.entries.last().copied(), Some(LogEntry::Slain { victim: 1 }));
    assert!(w.alive[player]);
    assert_eq!(w.combat_stats[player].unwrap().hp, 0);
    // The name of the slain entity is retained for rendering the log.
    assert!(w.names[1].is_some());
}

#[test]
fn no_op_tick_changes_nothing() {
    // AwaitingInput with no key: state stays, no system runs, the log is
    // unchanged.
    let mut w = world_with_monster(30, 20);
    w.run_state = RunState::AwaitingInput;
    let mut gs = State { ecs: w };
    let log_before = gs.ecs.log.entries.clone();
    let positions_before = gs.ecs.positions.clone();
    gs.tick(None, MenuResult::NoResponse);
    assert_eq!(gs.ecs.run_state, RunState::AwaitingInput);
    assert_eq!(gs.ecs.log.entries, log_before);
    assert_eq!(gs.ecs.positions, positions_before);
}

#[test]
fn tick_sequences_player_and_monster_turns() {
    let mut w = world_with_monster(30, 20);
    w.run_state = RunState::PreRun;
    let mut gs = State { ecs: w };
    gs.tick(None, MenuResult::NoResponse);
    assert_eq!(gs.ecs.run_state, RunState::AwaitingInput);
    gs.tick(Some(Command::Move { dx: 1, dy: 0 }), MenuResult::NoResponse);
    assert_eq!(gs.ecs.run_state, RunState::PlayerTurn);
    gs.tick(None, MenuResult::NoResponse);
    assert_eq!(gs.ecs.run_state, RunState::MonsterTurn);
    gs.tick(None, MenuResult::NoResponse);
    assert_eq!(gs.ecs.run_state, RunState::AwaitingInput);
}

#[test]
fn menu_selection_enqueues_drink_intent() {
    let mut w = World::new();
    spawner::player(&mut w, 10, 10);
    spawner::health_potion_to_backpack(&mut w, 0);
    w.run_state = RunState::ShowInventory;
    let mut gs = State { ecs: w };
    gs.tick(None, MenuResult::Selected { item: 1 });
    assert_eq!(gs.ecs.run_state, RunState::PlayerTurn);
    assert_eq!(gs.ecs.wants_drink[0], Some(1));
    // The next tick resolves the drink.
    gs.tick(None, MenuResult::NoResponse);
    assert_eq!(gs.ecs.run_state, RunState::MonsterTurn);
    assert!(!gs.ecs.alive[1]);
}

#[test]
fn menu_cancel_returns_to_input() {
    let mut w = World::new();
    spawner::player(&mut w, 10, 10);
    w.run_state = RunState::ShowDropItems;
    let mut gs = State { ecs: w };
    gs.tick(None, MenuResult::Cancel);
    assert_eq!(gs.ecs.run_state, RunState::AwaitingInput);
    // NoResponse keeps the menu open.
    gs.ecs.run_state = RunState::ShowDropItems;
    gs.tick(None, MenuResult::NoResponse);
    assert_eq!(gs.ecs.run_state, RunState::ShowDropItems);
}

#[test]
fn rng_rolls_stay_in_range_and_are_deterministic() {
    let mut a = Rng::new(42);
    let mut b = Rng::new(42);
    for _ in 0..100 {
        let r = a.roll_dice(3, 6);
        assert!((3..=18).contains(&r));
        assert_eq!(r, b.roll_dice(3, 6));
        let v = a.range(5, 9);
        assert!((5..9).contains(&v));
        assert_eq!(v, b.range(5, 9));
    }
}
