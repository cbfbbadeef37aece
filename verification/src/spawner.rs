//! Spawn logic: creates the player, monsters and items by attaching the
//! right components to fresh entities.  Randomness is drawn from the
//! injectable generator and handed to the logic as plain numbers.

use vstd::prelude::*;
use crate::components::{CombatStats, Position, Potion, Renderable, Viewshed};
use crate::rng::Rng;
use crate::map::Rect;
use crate::world::World;

verus! {

/// Most monsters a single room may hold.
pub const MAX_MONSTERS: usize = 4;
/// Most items a single room may hold.
pub const MAX_ITEMS: usize = 2;

/// Creates the player entity at `(x, y)` and records it as the world's
/// player.  Requires a world that has no player yet.
pub fn player(ecs: &mut World, player_x: i32, player_y: i32) -> (e: usize)
    requires
        old(ecs).store_wf(),
        old(ecs).n() < 0x8000,
        0 <= player_x < 80,
        0 <= player_y < 50,
        forall|i: int| 0 <= i < old(ecs).n() ==> !(#[trigger] old(ecs).players@[i]),
    ensures
        final(ecs).wf(),
        e as int == old(ecs).n(),
        final(ecs).n() == old(ecs).n() + 1,
        final(ecs).player_entity == e,
        final(ecs).player_pos == (Position { x: player_x, y: player_y }),
        final(ecs).positions@[e as int] == Some(Position { x: player_x, y: player_y }),
        final(ecs).players@[e as int],
        !final(ecs).monsters@[e as int],
        final(ecs).combat_stats@[e as int] == Some(
            CombatStats { max_hp: 30, hp: 30, defense: 2, power: 5 },
        ),
        final(ecs).viewsheds@[e as int].is_some(),
        final(ecs).viewsheds@[e as int].unwrap().range == 8,
        final(ecs).viewsheds@[e as int].unwrap().dirty,
        final(ecs).names@[e as int].is_some(),
        final(ecs).wants_melee@[e as int] is None,
        final(ecs).wants_pickup@[e as int] is None,
        final(ecs).wants_drop@[e as int] is None,
        final(ecs).wants_drink@[e as int] is None,
        final(ecs).suffer_damage@[e as int]@ == Seq::<i32>::empty(),
        final(ecs).items@ == old(ecs).items@.push(false),
        final(ecs).potions@ == old(ecs).potions@.push(None),
        final(ecs).in_backpack@ == old(ecs).in_backpack@.push(None),
        forall|i: int| 0 <= i < old(ecs).n() ==> {
            &&& final(ecs).positions@[i] == old(ecs).positions@[i]
            &&& final(ecs).combat_stats@[i] == old(ecs).combat_stats@[i]
            &&& final(ecs).players@[i] == old(ecs).players@[i]
            &&& final(ecs).monsters@[i] == old(ecs).monsters@[i]
            &&& final(ecs).names@[i] == old(ecs).names@[i]
            &&& final(ecs).wants_melee@[i] == old(ecs).wants_melee@[i]
            &&& final(ecs).wants_pickup@[i] == old(ecs).wants_pickup@[i]
            &&& final(ecs).wants_drop@[i] == old(ecs).wants_drop@[i]
            &&& final(ecs).wants_drink@[i] == old(ecs).wants_drink@[i]
            &&& final(ecs).suffer_damage@[i] == old(ecs).suffer_damage@[i]
        },
        final(ecs).map == old(ecs).map,
        final(ecs).run_state == old(ecs).run_state,
        final(ecs).log == old(ecs).log,
        final(ecs).to_delete == old(ecs).to_delete,
{
    let e = ecs.spawn();
    ecs.positions.set(e, Some(Position { x: player_x, y: player_y }));
    ecs.renderables.set(
        e,
        Some(
            Renderable {
                glyph: '@' as u32,
                fg: 0xFFFF00,
                bg: 0x000000,
                render_order: crate::components::RenderOrder::Player.as_i32(),
            },
        ),
    );
    ecs.players.set(e, true);
    ecs.viewsheds.set(e, Some(Viewshed { visible_tiles: Vec::new(), range: 8, dirty: true }));
    ecs.names.set(e, Some("Player".to_owned()));
    ecs.combat_stats.set(e, Some(CombatStats { max_hp: 30, hp: 30, defense: 2, power: 5 }));
    ecs.player_entity = e;
    ecs.player_pos = Position { x: player_x, y: player_y };
    e
}

/// Creates one monster entity at `(x, y)` with the given presentation and
/// name.
pub fn monster(ecs: &mut World, x: i32, y: i32, colour: u32, glyph: u32, name: &str)
    requires
        old(ecs).wf(),
        old(ecs).n() < 0x8000,
        0 <= x < 80,
        0 <= y < 50,
    ensures
        final(ecs).wf(),
        final(ecs).n() == old(ecs).n() + 1,
        final(ecs).positions@[old(ecs).n()] == Some(Position { x, y }),
        final(ecs).monsters@[old(ecs).n()],
        !final(ecs).players@[old(ecs).n()],
        final(ecs).blocks_tile@[old(ecs).n()],
        final(ecs).combat_stats@[old(ecs).n()] == Some(
            CombatStats { max_hp: 16, hp: 16, defense: 1, power: 4 },
        ),
        final(ecs).viewsheds@[old(ecs).n()].is_some(),
        final(ecs).names@[old(ecs).n()].is_some(),
        final(ecs).items@ == old(ecs).items@.push(false),
        final(ecs).potions@ == old(ecs).potions@.push(None),
        final(ecs).wants_melee@ == old(ecs).wants_melee@.push(None),
        final(ecs).wants_pickup@ == old(ecs).wants_pickup@.push(None),
        final(ecs).wants_drop@ == old(ecs).wants_drop@.push(None),
        final(ecs).wants_drink@ == old(ecs).wants_drink@.push(None),
        final(ecs).in_backpack@ == old(ecs).in_backpack@.push(None),
        forall|i: int| 0 <= i < old(ecs).n() ==> {
            &&& final(ecs).positions@[i] == old(ecs).positions@[i]
            &&& final(ecs).combat_stats@[i] == old(ecs).combat_stats@[i]
            &&& final(ecs).players@[i] == old(ecs).players@[i]
            &&& final(ecs).monsters@[i] == old(ecs).monsters@[i]
            &&& final(ecs).names@[i] == old(ecs).names@[i]
            &&& final(ecs).suffer_damage@[i] == old(ecs).suffer_damage@[i]
        },
        final(ecs).suffer_damage@[old(ecs).n()]@ == Seq::<i32>::empty(),
        final(ecs).map == old(ecs).map,
        final(ecs).player_entity == old(ecs).player_entity,
        final(ecs).player_pos == old(ecs).player_pos,
        final(ecs).run_state == old(ecs).run_state,
        final(ecs).log == old(ecs).log,
        final(ecs).to_delete == old(ecs).to_delete,
{
    let e = ecs.spawn();
    ecs.positions.set(e, Some(Position { x, y }));
    ecs.renderables.set(
        e,
        Some(
            Renderable {
                glyph,
                fg: colour,
                bg: 0x000000,
                render_order: crate::components::RenderOrder::Monster.as_i32(),
            },
        ),
    );
    ecs.viewsheds.set(e, Some(Viewshed { visible_tiles: Vec::new(), range: 8, dirty: true }));
    ecs.monsters.set(e, true);
    ecs.names.set(e, Some(name.to_owned()));
    ecs.blocks_tile.set(e, true);
    ecs.combat_stats.set(e, Some(CombatStats { max_hp: 16, hp: 16, defense: 1, power: 4 }));
}

/// An orc.
pub fn orc(ecs: &mut World, x: i32, y: i32)
    requires
        old(ecs).wf(),
        old(ecs).n() < 0x8000,
        0 <= x < 80,
        0 <= y < 50,
    ensures
        final(ecs).wf(),
        final(ecs).n() == old(ecs).n() + 1,
        final(ecs).positions@[old(ecs).n()] == Some(Position { x, y }),
        final(ecs).monsters@[old(ecs).n()],
        forall|i: int| 0 <= i < old(ecs).n() ==> {
            &&& (#[trigger] final(ecs).positions@[i]) == old(ecs).positions@[i]
            &&& final(ecs).combat_stats@[i] == old(ecs).combat_stats@[i]
            &&& final(ecs).players@[i] == old(ecs).players@[i]
            &&& final(ecs).monsters@[i] == old(ecs).monsters@[i]
            &&& final(ecs).names@[i] == old(ecs).names@[i]
        },
        final(ecs).map == old(ecs).map,
        final(ecs).player_entity == old(ecs).player_entity,
        final(ecs).player_pos == old(ecs).player_pos,
        final(ecs).run_state == old(ecs).run_state,
        final(ecs).log == old(ecs).log,
        final(ecs).to_delete == old(ecs).to_delete,
{
    monster(ecs, x, y, 0x90EE90, 'O' as u32, "Orc");
}

/// A goblin.
pub fn goblin(ecs: &mut World, x: i32, y: i32)
    requires
        old(ecs).wf(),
        old(ecs).n() < 0x8000,
        0 <= x < 80,
        0 <= y < 50,
    ensures
        final(ecs).wf(),
        final(ecs).n() == old(ecs).n() + 1,
        final(ecs).positions@[old(ecs).n()] == Some(Position { x, y }),
        final(ecs).monsters@[old(ecs).n()],
        forall|i: int| 0 <= i < old(ecs).n() ==> {
            &&& (#[trigger] final(ecs).positions@[i]) == old(ecs).positions@[i]
            &&& final(ecs).combat_stats@[i] == old(ecs).combat_stats@[i]
            &&& final(ecs).players@[i] == old(ecs).players@[i]
            &&& final(ecs).monsters@[i] == old(ecs).monsters@[i]
            &&& final(ecs).names@[i] == old(ecs).names@[i]
        },
        final(ecs).map == old(ecs).map,
        final(ecs).player_entity == old(ecs).player_entity,
        final(ecs).player_pos == old(ecs).player_pos,
        final(ecs).run_state == old(ecs).run_state,
        final(ecs).log == old(ecs).log,
        final(ecs).to_delete == old(ecs).to_delete,
{
    monster(ecs, x, y, 0xFF0000, 'g' as u32, "Goblin");
}

/// Rolls one die and spawns either an orc or a goblin at `(x, y)`.
pub fn random_monster(ecs: &mut World, rng: &mut Rng, x: i32, y: i32)
    requires
        old(ecs).wf(),
        old(ecs).n() < 0x8000,
        0 <= x < 80,
        0 <= y < 50,
    ensures
        final(ecs).wf(),
        final(ecs).n() == old(ecs).n() + 1,
        final(ecs).positions@[old(ecs).n()] == Some(Position { x, y }),
        final(ecs).monsters@[old(ecs).n()],
        forall|i: int| 0 <= i < old(ecs).n() ==> {
            &&& (#[trigger] final(ecs).positions@[i]) == old(ecs).positions@[i]
            &&& final(ecs).combat_stats@[i] == old(ecs).combat_stats@[i]
            &&& final(ecs).players@[i] == old(ecs).players@[i]
            &&& final(ecs).monsters@[i] == old(ecs).monsters@[i]
            &&& final(ecs).names@[i] == old(ecs).names@[i]
        },
        final(ecs).map == old(ecs).map,
        final(ecs).player_entity == old(ecs).player_entity,
        final(ecs).player_pos == old(ecs).player_pos,
        final(ecs).run_state == old(ecs).run_state,
        final(ecs).log == old(ecs).log,
        final(ecs).to_delete == old(ecs).to_delete,
{
    let roll = rng.roll_dice(1, 2);
    if roll == 1 {
        orc(ecs, x, y);
    } else {
        goblin(ecs, x, y);
    }
}

/// Creates a health potion item lying on the map at `(x, y)`.
pub fn health_potion(ecs: &mut World, x: i32, y: i32)
    requires
        old(ecs).wf(),
        old(ecs).n() < 0x8000,
        0 <= x < 80,
        0 <= y < 50,
    ensures
        final(ecs).wf(),
        final(ecs).n() == old(ecs).n() + 1,
        final(ecs).positions@[old(ecs).n()] == Some(Position { x, y }),
        final(ecs).items@[old(ecs).n()],
        final(ecs).potions@[old(ecs).n()] == Some(Potion { amount: 8 }),
        final(ecs).names@[old(ecs).n()].is_some(),
        final(ecs).in_backpack@[old(ecs).n()] is None,
        !final(ecs).players@[old(ecs).n()],
        final(ecs).combat_stats@[old(ecs).n()] is None,
        forall|i: int| 0 <= i < old(ecs).n() ==> {
            &&& (#[trigger] final(ecs).positions@[i]) == old(ecs).positions@[i]
            &&& final(ecs).combat_stats@[i] == old(ecs).combat_stats@[i]
            &&& final(ecs).players@[i] == old(ecs).players@[i]
            &&& final(ecs).monsters@[i] == old(ecs).monsters@[i]
            &&& final(ecs).names@[i] == old(ecs).names@[i]
        },
        final(ecs).map == old(ecs).map,
        final(ecs).player_entity == old(ecs).player_entity,
        final(ecs).player_pos == old(ecs).player_pos,
        final(ecs).run_state == old(ecs).run_state,
        final(ecs).log == old(ecs).log,
        final(ecs).to_delete == old(ecs).to_delete,
{
    let e = ecs.spawn();
    ecs.positions.set(e, Some(Position { x, y }));
    ecs.renderables.set(
        e,
        Some(
            Renderable {
                glyph: 'i' as u32,
                fg: 0xFF00FF,
                bg: 0x000000,
                render_order: crate::components::RenderOrder::Item.as_i32(),
            },
        ),
    );
    ecs.names.set(e, Some("Health Potion".to_owned()));
    ecs.items.set(e, true);
    ecs.potions.set(e, Some(Potion { amount: 8 }));
}

/// Creates a health potion already carried by `owner`.
pub fn health_potion_to_backpack(ecs: &mut World, owner: usize)
    requires
        old(ecs).wf(),
        old(ecs).n() < 0x8000,
        (owner as int) < old(ecs).n(),
    ensures
        final(ecs).wf(),
        final(ecs).n() == old(ecs).n() + 1,
        final(ecs).in_backpack@[old(ecs).n()] == Some(owner),
        final(ecs).items@[old(ecs).n()],
        final(ecs).potions@[old(ecs).n()] == Some(Potion { amount: 8 }),
        final(ecs).names@[old(ecs).n()].is_some(),
        final(ecs).positions@[old(ecs).n()] is None,
        !final(ecs).players@[old(ecs).n()],
{
    let e = ecs.spawn();
    ecs.renderables.set(
        e,
        Some(
            Renderable {
                glyph: 'i' as u32,
                fg: 0xFF00FF,
                bg: 0x000000,
                render_order: crate::components::RenderOrder::Item.as_i32(),
            },
        ),
    );
    ecs.in_backpack.set(e, Some(owner));
    ecs.names.set(e, Some("Health Potion".to_owned()));
    ecs.items.set(e, true);
    ecs.potions.set(e, Some(Potion { amount: 8 }));
}

/// Populates one room: up to `MAX_MONSTERS` monsters and `MAX_ITEMS` health
/// potions at random distinct tiles strictly inside the room.  A bounded
/// number of placement retries keeps the spawner total; a tile that stays
/// contested after the retries is simply left empty.
pub fn spawn_room(ecs: &mut World, rng: &mut Rng, room: &Rect)
    requires
        old(ecs).wf(),
        old(ecs).n() + 6 <= 0x8000,
        room.in_bounds(),
        room.x2 > room.x1,
        room.y2 > room.y1,
    ensures
        final(ecs).wf(),
        old(ecs).n() <= final(ecs).n() <= old(ecs).n() + 6,
        forall|e: int| old(ecs).n() <= e < final(ecs).n() ==> {
            &&& (#[trigger] final(ecs).positions@[e]).is_some()
            &&& room.x1 < final(ecs).positions@[e].unwrap().x <= room.x2
            &&& room.y1 < final(ecs).positions@[e].unwrap().y <= room.y2
        },
        forall|i: int| 0 <= i < old(ecs).n() ==> {
            &&& (#[trigger] final(ecs).positions@[i]) == old(ecs).positions@[i]
            &&& final(ecs).combat_stats@[i] == old(ecs).combat_stats@[i]
            &&& final(ecs).players@[i] == old(ecs).players@[i]
            &&& final(ecs).monsters@[i] == old(ecs).monsters@[i]
            &&& final(ecs).names@[i] == old(ecs).names@[i]
        },
        final(ecs).map == old(ecs).map,
        final(ecs).player_entity == old(ecs).player_entity,
        final(ecs).player_pos == old(ecs).player_pos,
        final(ecs).run_state == old(ecs).run_state,
        final(ecs).log == old(ecs).log,
        final(ecs).to_delete == old(ecs).to_delete,
{
    let num_monsters = rng.roll_dice(1, MAX_MONSTERS as i32);
    let num_items = rng.roll_dice(1, MAX_ITEMS as i32);

    let mut monster_spawn_points: Vec<(i32, i32)> = Vec::new();
    let mut item_spawn_points: Vec<(i32, i32)> = Vec::new();

    let mut i: i32 = 0;
    while i < num_monsters
        invariant
            room.in_bounds(),
            room.x2 > room.x1,
            room.y2 > room.y1,
            0 <= i <= num_monsters <= 4,
            monster_spawn_points@.len() <= i,
            forall|k: int| 0 <= k < monster_spawn_points@.len() ==> in_room(
                #[trigger] monster_spawn_points@[k],
                *room,
            ),
        decreases num_monsters - i,
    {
        let mut added = false;
        let mut tries: usize = 0;
        while !added && tries < 20
            invariant
                room.in_bounds(),
                room.x2 > room.x1,
                room.y2 > room.y1,
                !added ==> monster_spawn_points@.len() <= i,
                added ==> monster_spawn_points@.len() <= i + 1,
                forall|k: int| 0 <= k < monster_spawn_points@.len() ==> in_room(
                    #[trigger] monster_spawn_points@[k],
                    *room,
                ),
            decreases 20 - tries,
        {
            let sx = room.x1 + rng.roll_dice(1, room.x2 - room.x1);
            let sy = room.y1 + rng.roll_dice(1, room.y2 - room.y1);
            if !contains_point(&monster_spawn_points, (sx, sy)) {
                monster_spawn_points.push((sx, sy));
                added = true;
            }
            tries = tries + 1;
        }
        i = i + 1;
    }

    let mut j: i32 = 0;
    while j < num_items
        invariant
            room.in_bounds(),
            room.x2 > room.x1,
            room.y2 > room.y1,
            0 <= j <= num_items <= 2,
            item_spawn_points@.len() <= j,
            forall|k: int| 0 <= k < item_spawn_points@.len() ==> in_room(
                #[trigger] item_spawn_points@[k],
                *room,
            ),
        decreases num_items - j,
    {
        let mut added = false;
        let mut tries: usize = 0;
        while !added && tries < 20
            invariant
                room.in_bounds(),
                room.x2 > room.x1,
                room.y2 > room.y1,
                !added ==> item_spawn_points@.len() <= j,
                added ==> item_spawn_points@.len() <= j + 1,
                forall|k: int| 0 <= k < item_spawn_points@.len() ==> in_room(
                    #[trigger] item_spawn_points@[k],
                    *room,
                ),
            decreases 20 - tries,
        {
            let sx = room.x1 + rng.roll_dice(1, room.x2 - room.x1);
            let sy = room.y1 + rng.roll_dice(1, room.y2 - room.y1);
            if !contains_point(&item_spawn_points, (sx, sy)) {
                item_spawn_points.push((sx, sy));
                added = true;
            }
            tries = tries + 1;
        }
        j = j + 1;
    }

    spawn_monsters_at(ecs, rng, &monster_spawn_points, room);
    spawn_potions_at(ecs, &item_spawn_points, room);
}

/// Spawns one random monster at each listed point.
fn spawn_monsters_at(ecs: &mut World, rng: &mut Rng, points: &Vec<(i32, i32)>, room: &Rect)
    requires
        old(ecs).wf(),
        room.in_bounds(),
        points@.len() <= 4,
        old(ecs).n() + points@.len() <= 0x8000,
        forall|k: int| 0 <= k < points@.len() ==> in_room(#[trigger] points@[k], *room),
    ensures
        final(ecs).wf(),
        old(ecs).n() <= final(ecs).n() <= old(ecs).n() + points@.len(),
        forall|e: int| old(ecs).n() <= e < final(ecs).n() ==> {
            &&& (#[trigger] final(ecs).positions@[e]).is_some()
            &&& room.x1 < final(ecs).positions@[e].unwrap().x <= room.x2
            &&& room.y1 < final(ecs).positions@[e].unwrap().y <= room.y2
        },
        forall|i: int| 0 <= i < old(ecs).n() ==> {
            &&& (#[trigger] final(ecs).positions@[i]) == old(ecs).positions@[i]
            &&& final(ecs).combat_stats@[i] == old(ecs).combat_stats@[i]
            &&& final(ecs).players@[i] == old(ecs).players@[i]
            &&& final(ecs).monsters@[i] == old(ecs).monsters@[i]
            &&& final(ecs).names@[i] == old(ecs).names@[i]
        },
        final(ecs).map == old(ecs).map,
        final(ecs).player_entity == old(ecs).player_entity,
        final(ecs).player_pos == old(ecs).player_pos,
        final(ecs).run_state == old(ecs).run_state,
        final(ecs).log == old(ecs).log,
        final(ecs).to_delete == old(ecs).to_delete,
{
    let mut m: usize = 0;
    while m < points.len()
        invariant
            ecs.wf(),
            room.in_bounds(),
            points@.len() <= 4,
            m <= points@.len(),
            old(ecs).n() <= ecs.n() <= old(ecs).n() + m,
            old(ecs).n() + points@.len() <= 0x8000,
            forall|k: int| 0 <= k < points@.len() ==> in_room(#[trigger] points@[k], *room),
            forall|e: int| old(ecs).n() <= e < ecs.n() ==> {
                &&& (#[trigger] ecs.positions@[e]).is_some()
                &&& room.x1 < ecs.positions@[e].unwrap().x <= room.x2
                &&& room.y1 < ecs.positions@[e].unwrap().y <= room.y2
            },
            forall|i: int| 0 <= i < old(ecs).n() ==> {
                &&& (#[trigger] ecs.positions@[i]) == old(ecs).positions@[i]
                &&& ecs.combat_stats@[i] == old(ecs).combat_stats@[i]
                &&& ecs.players@[i] == old(ecs).players@[i]
                &&& ecs.monsters@[i] == old(ecs).monsters@[i]
                &&& ecs.names@[i] == old(ecs).names@[i]
            },
            ecs.map == old(ecs).map,
            ecs.player_entity == old(ecs).player_entity,
            ecs.player_pos == old(ecs).player_pos,
            ecs.run_state == old(ecs).run_state,
            ecs.log == old(ecs).log,
            ecs.to_delete == old(ecs).to_delete,
        decreases points@.len() - m,
    {
        let (sx, sy) = points[m];
        assert(in_room(points@[m as int], *room));
        random_monster(ecs, rng, sx, sy);
        m = m + 1;
    }
}

/// Spawns one health potion at each listed point.
fn spawn_potions_at(ecs: &mut World, points: &Vec<(i32, i32)>, room: &Rect)
    requires
        old(ecs).wf(),
        room.in_bounds(),
        points@.len() <= 2,
        old(ecs).n() + points@.len() <= 0x8000,
        forall|k: int| 0 <= k < points@.len() ==> in_room(#[trigger] points@[k], *room),
    ensures
        final(ecs).wf(),
        old(ecs).n() <= final(ecs).n() <= old(ecs).n() + points@.len(),
        forall|e: int| old(ecs).n() <= e < final(ecs).n() ==> {
            &&& (#[trigger] final(ecs).positions@[e]).is_some()
            &&& room.x1 < final(ecs).positions@[e].unwrap().x <= room.x2
            &&& room.y1 < final(ecs).positions@[e].unwrap().y <= room.y2
        },
        forall|i: int| 0 <= i < old(ecs).n() ==> {
            &&& (#[trigger] final(ecs).positions@[i]) == old(ecs).positions@[i]
            &&& final(ecs).combat_stats@[i] == old(ecs).combat_stats@[i]
            &&& final(ecs).players@[i] == old(ecs).players@[i]
            &&& final(ecs).monsters@[i] == old(ecs).monsters@[i]
            &&& final(ecs).names@[i] == old(ecs).names@[i]
        },
        final(ecs).map == old(ecs).map,
        final(ecs).player_entity == old(ecs).player_entity,
        final(ecs).player_pos == old(ecs).player_pos,
        final(ecs).run_state == old(ecs).run_state,
        final(ecs).log == old(ecs).log,
        final(ecs).to_delete == old(ecs).to_delete,
{
    let mut it: usize = 0;
    while it < points.len()
        invariant
            ecs.wf(),
            room.in_bounds(),
            points@.len() <= 2,
            it <= points@.len(),
            old(ecs).n() <= ecs.n() <= old(ecs).n() + it,
            old(ecs).n() + points@.len() <= 0x8000,
            forall|k: int| 0 <= k < points@.len() ==> in_room(#[trigger] points@[k], *room),
            forall|e: int| old(ecs).n() <= e < ecs.n() ==> {
                &&& (#[trigger] ecs.positions@[e]).is_some()
                &&& room.x1 < ecs.positions@[e].unwrap().x <= room.x2
                &&& room.y1 < ecs.positions@[e].unwrap().y <= room.y2
            },
            forall|i: int| 0 <= i < old(ecs).n() ==> {
                &&& (#[trigger] ecs.positions@[i]) == old(ecs).positions@[i]
                &&& ecs.combat_stats@[i] == old(ecs).combat_stats@[i]
                &&& ecs.players@[i] == old(ecs).players@[i]
                &&& ecs.monsters@[i] == old(ecs).monsters@[i]
                &&& ecs.names@[i] == old(ecs).names@[i]
            },
            ecs.map == old(ecs).map,
            ecs.player_entity == old(ecs).player_entity,
            ecs.player_pos == old(ecs).player_pos,
            ecs.run_state == old(ecs).run_state,
            ecs.log == old(ecs).log,
            ecs.to_delete == old(ecs).to_delete,
        decreases points@.len() - it,
    {
        let (sx, sy) = points[it];
        assert(in_room(points@[it as int], *room));
        health_potion(ecs, sx, sy);
        it = it + 1;
    }
}

/// The point lies strictly inside the room's left and top edges and within
/// its right and bottom edges, as the spawn rolls produce.
pub open spec fn in_room(p: (i32, i32), room: Rect) -> bool {
    room.x1 < p.0 <= room.x2 && room.y1 < p.1 <= room.y2
}

/// Linear membership scan over a list of spawn points.
fn contains_point(points: &Vec<(i32, i32)>, p: (i32, i32)) -> (r: bool)
    ensures
        r == points@.contains(p),
{
    let mut k: usize = 0;
    while k < points.len()
        invariant
            k <= points@.len(),
            forall|j: int| 0 <= j < k ==> points@[j] != p,
        decreases points@.len() - k,
    {
        let q = points[k];
        if q.0 == p.0 && q.1 == p.1 {
            proof {
                assert(points@[k as int] == p);
            }
            return true;
        }
        k = k + 1;
    }
    proof {
        assert(!points@.contains(p));
    }
    false
}

} // verus!
