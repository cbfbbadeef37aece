//! Player movement resolution: a move command either attacks the first
//! combat-capable occupant of the destination tile, moves the player onto
//! an unblocked tile, or does nothing.

use vstd::prelude::*;
use crate::components::{Position, Viewshed};
use crate::map::spec_xy_idx;
use crate::monster_ai_system::{first_combatant, first_combatant_from};
use crate::state::{Command, RunState, State};
use crate::world::{same_world, World};

verus! {

/// The world relation of one move attempt with deltas `(dx, dy)`: attack
/// the destination's first combat-capable occupant, else move onto the
/// tile when it is not blocked, else stand still.  A destination off the
/// map is refused outright.
pub open spec fn try_move_rel(w0: World, w1: World, dx: int, dy: int) -> bool {
    let nx = w0.player_pos.x + dx;
    let ny = w0.player_pos.y + dy;
    let player = w0.player_entity as int;
    if w0.viewsheds@[player] is None {
        same_world(w0, w1)
    } else if !(0 <= nx < 80 && 0 <= ny < 50) {
        same_world(w0, w1)
    } else {
        match first_combatant_from(w0, w0.map.tile_content@[spec_xy_idx(nx, ny)]@, 0) {
            Some(tgt) => {
                &&& w1.wants_melee@ == w0.wants_melee@.update(player, Some(tgt))
                &&& w1.positions@ == w0.positions@
                &&& w1.viewsheds@ == w0.viewsheds@
                &&& w1.player_pos == w0.player_pos
                &&& unchanged_but_move(w0, w1)
            },
            None => {
                if !w0.map.blocked@[spec_xy_idx(nx, ny)] {
                    &&& w1.positions@ == w0.positions@.update(
                        player,
                        Some(Position { x: nx as i32, y: ny as i32 }),
                    )
                    &&& w1.player_pos == (Position { x: nx as i32, y: ny as i32 })
                    &&& w1.viewsheds@[player].is_some()
                    &&& w1.viewsheds@[player].unwrap().dirty
                    &&& w1.viewsheds@[player].unwrap().range == w0.viewsheds@[player].unwrap().range
                    &&& w1.viewsheds@[player].unwrap().visible_tiles@ == Seq::<Position>::empty()
                    &&& forall|e: int| 0 <= e < w0.n() && e != player
                        ==> #[trigger] w1.viewsheds@[e] == w0.viewsheds@[e]
                    &&& w1.viewsheds@.len() == w0.viewsheds@.len()
                    &&& w1.wants_melee@ == w0.wants_melee@
                    &&& unchanged_but_move(w0, w1)
                } else {
                    same_world(w0, w1)
                }
            },
        }
    }
}

/// The fields a move attempt never touches.
pub open spec fn unchanged_but_move(w0: World, w1: World) -> bool {
    &&& w1.alive@ == w0.alive@
    &&& w1.renderables@ == w0.renderables@
    &&& w1.players@ == w0.players@
    &&& w1.monsters@ == w0.monsters@
    &&& w1.names@ == w0.names@
    &&& w1.blocks_tile@ == w0.blocks_tile@
    &&& w1.combat_stats@ == w0.combat_stats@
    &&& w1.items@ == w0.items@
    &&& w1.potions@ == w0.potions@
    &&& w1.in_backpack@ == w0.in_backpack@
    &&& w1.wants_pickup@ == w0.wants_pickup@
    &&& w1.wants_drop@ == w0.wants_drop@
    &&& w1.wants_drink@ == w0.wants_drink@
    &&& w1.suffer_damage@ == w0.suffer_damage@
    &&& w1.to_delete@ == w0.to_delete@
    &&& w1.map.tiles@ == w0.map.tiles@
    &&& w1.map.rooms@ == w0.map.rooms@
    &&& w1.map.blocked@ == w0.map.blocked@
    &&& w1.map.tile_content@ == w0.map.tile_content@
    &&& w1.map.revealed_tiles@ == w0.map.revealed_tiles@
    &&& w1.map.visible_tiles@ == w0.map.visible_tiles@
    &&& w1.map.width == w0.map.width
    &&& w1.map.height == w0.map.height
    &&& w1.player_entity == w0.player_entity
    &&& w1.run_state == w0.run_state
    &&& w1.log.entries@ == w0.log.entries@
}

/// Resolves one player move command: attack, step, or stand still.
pub fn try_move_player(delta_x: i32, delta_y: i32, ecs: &mut World)
    requires
        old(ecs).wf(),
        old(ecs).intents_valid(),
        -1 <= delta_x <= 1,
        -1 <= delta_y <= 1,
    ensures
        final(ecs).wf(),
        final(ecs).intents_valid(),
        try_move_rel(*old(ecs), *final(ecs), delta_x as int, delta_y as int),
{
    let player = ecs.player_entity;
    let has_viewshed = match &ecs.viewsheds[player] {
        Some(_) => true,
        None => false,
    };
    if !has_viewshed {
        return ;
    }
    let pos = ecs.player_pos;
    let nx = pos.x + delta_x;
    let ny = pos.y + delta_y;
    if !(0 <= nx && nx < 80 && 0 <= ny && ny < 50) {
        return ;
    }
    let dest = ecs.map.xy_idx(nx, ny);
    let target = first_combatant(ecs, dest);
    match target {
        Some(tgt) => {
            proof {
                crate::monster_ai_system::lemma_first_combatant_stats(
                    *ecs,
                    ecs.map.tile_content@[dest as int]@,
                    0,
                );
                let s_ = ecs.map.tile_content@[dest as int]@;
                let jj = choose|jj: int| 0 <= jj < s_.len() && #[trigger] s_[jj] == tgt;
                assert(ecs.map.tile_content@[dest as int]@[jj] < ecs.n());
            }
            ecs.wants_melee.set(player, Some(tgt));
        },
        None => {
            if !ecs.map.blocked[dest] {
                let range = match &ecs.viewsheds[player] {
                    Some(vs) => vs.range,
                    None => 0,
                };
                proof {
                    assert(old(ecs).viewsheds@[player as int].is_some());
                    assert(0 <= old(ecs).viewsheds@[player as int].unwrap().range <= 0x7FFF);
                    assert(old(ecs).in_backpack@[player as int] is None);
                }
                ecs.positions.set(player, Some(Position { x: nx, y: ny }));
                let fresh: Vec<Position> = Vec::new();
                assert(fresh@ == Seq::<Position>::empty());
                ecs.viewsheds.set(
                    player,
                    Some(Viewshed { visible_tiles: fresh, range, dirty: true }),
                );
                ecs.player_pos = Position { x: nx, y: ny };
            }
        },
    }
}

/// Maps one input command to its world effect and the next run-state: a
/// move resolves immediately and hands the turn to the simulation; a menu
/// request opens the menu; no command is a no-op tick.
pub fn player_input(gs: &mut State, cmd: Option<Command>) -> (r: RunState)
    requires
        old(gs).ecs.wf(),
        old(gs).ecs.intents_valid(),
        (match cmd {
            Some(Command::Move { dx, dy }) => -1 <= dx <= 1 && -1 <= dy <= 1,
            _ => true,
        }),
    ensures
        final(gs).ecs.wf(),
        final(gs).ecs.intents_valid(),
        (match cmd {
            None => same_world(old(gs).ecs, final(gs).ecs) && r == RunState::AwaitingInput,
            Some(Command::Move { dx, dy }) => try_move_rel(
                old(gs).ecs,
                final(gs).ecs,
                dx as int,
                dy as int,
            ) && r == RunState::PlayerTurn,
            Some(Command::OpenInventory) => same_world(old(gs).ecs, final(gs).ecs) && r
                == RunState::ShowInventory,
            Some(Command::OpenDropMenu) => same_world(old(gs).ecs, final(gs).ecs) && r
                == RunState::ShowDropItems,
        }),
{
    match cmd {
        None => RunState::AwaitingInput,
        Some(Command::Move { dx, dy }) => {
            try_move_player(dx, dy, &mut gs.ecs);
            RunState::PlayerTurn
        },
        Some(Command::OpenInventory) => RunState::ShowInventory,
        Some(Command::OpenDropMenu) => RunState::ShowDropItems,
    }
}

} // verus!
