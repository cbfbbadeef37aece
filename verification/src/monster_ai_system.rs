//! The monster decision system.  A monster that currently sees the player
//! attacks when adjacent, otherwise steps one tile toward the player along
//! the axis of greatest distance (ties toward the x axis), re-running the
//! same blocking checks as player movement: a blocked tile stops the step,
//! and a combat-capable occupant of the destination is attacked instead.

use vstd::prelude::*;
use vstd::math::abs;
use crate::components::{Position, Viewshed};
use crate::map::spec_xy_idx;
use crate::visibility_system::sgn;
use crate::world::World;

verus! {

/// The first combat-capable entity in an occupant list, from index `j` on.
pub open spec fn first_combatant_from(w: World, s: Seq<usize>, j: int) -> Option<usize>
    decreases s.len() - j,
{
    if j < 0 || j >= s.len() {
        None
    } else if w.combat_stats@[s[j] as int].is_some() {
        Some(s[j])
    } else {
        first_combatant_from(w, s, j + 1)
    }
}

/// Entity `e` is an autonomous actor able to decide: a monster with a
/// viewshed, standing on the map.
pub open spec fn monster_thinks(w: World, e: int) -> bool {
    &&& 0 <= e < w.n()
    &&& w.monsters@[e]
    &&& w.viewsheds@[e].is_some()
    &&& w.positions@[e].is_some()
}

/// The monster's viewshed currently contains the player's tile.
pub open spec fn sees_player(w: World, e: int) -> bool {
    w.viewsheds@[e].unwrap().visible_tiles@.contains(w.player_pos)
}

/// The monster takes an action this pass.
pub open spec fn ai_acts(w: World, e: int) -> bool {
    monster_thinks(w, e) && sees_player(w, e)
}

/// Squared Euclidean distance from the monster to the player.
pub open spec fn dist2_to_player(w: World, e: int) -> int {
    let p = w.positions@[e].unwrap();
    let q = w.player_pos;
    (q.x - p.x) * (q.x - p.x) + (q.y - p.y) * (q.y - p.y)
}

/// The approach step: one tile along the axis of greatest delta, ties
/// broken toward the x axis.
pub open spec fn ai_dest(w: World, e: int) -> (int, int) {
    let p = w.positions@[e].unwrap();
    let q = w.player_pos;
    if abs(q.x - p.x) >= abs(q.y - p.y) {
        (p.x + sgn(q.x - p.x), p.y as int)
    } else {
        (p.x as int, p.y + sgn(q.y - p.y))
    }
}

/// The combat-capable occupant of the destination tile, if any.
pub open spec fn ai_dest_combatant(w: World, e: int) -> Option<usize> {
    first_combatant_from(w, w.map.tile_content@[spec_xy_idx(ai_dest(w, e).0, ai_dest(w, e).1)]@, 0)
}

/// The melee intent of `e` after the pass: the player when adjacent, the
/// destination's occupant when stepping into one, the old value otherwise.
pub open spec fn ai_wants(w: World, e: int) -> Option<usize> {
    if ai_acts(w, e) {
        if dist2_to_player(w, e) <= 2 {
            Some(w.player_entity)
        } else {
            match ai_dest_combatant(w, e) {
                Some(t) => Some(t),
                None => w.wants_melee@[e],
            }
        }
    } else {
        w.wants_melee@[e]
    }
}

/// The monster actually moves: it approaches, nobody combat-capable holds
/// the destination, and the destination is not blocked.
pub open spec fn ai_moves(w: World, e: int) -> bool {
    &&& ai_acts(w, e)
    &&& dist2_to_player(w, e) > 2
    &&& ai_dest_combatant(w, e) is None
    &&& !w.map.blocked@[spec_xy_idx(ai_dest(w, e).0, ai_dest(w, e).1)]
}

/// The position of `e` after the pass.
pub open spec fn ai_pos(w: World, e: int) -> Option<Position> {
    if ai_moves(w, e) {
        Some(Position { x: ai_dest(w, e).0 as i32, y: ai_dest(w, e).1 as i32 })
    } else {
        w.positions@[e]
    }
}

/// The viewshed of `e` after the pass: marked dirty and emptied after a
/// move (the visibility resolver rebuilds a dirty viewshed before anyone
/// reads it), and untouched otherwise.
pub open spec fn ai_view_ok(w: World, e: int, vs1: Option<Viewshed>) -> bool {
    if ai_moves(w, e) {
        &&& vs1.is_some()
        &&& vs1.unwrap().range == w.viewsheds@[e].unwrap().range
        &&& vs1.unwrap().dirty
        &&& vs1.unwrap().visible_tiles@ == Seq::<Position>::empty()
    } else {
        vs1 == w.viewsheds@[e]
    }
}

/// The exact effect of one monster-decision pass: each monster's own
/// intent, position and viewshed follow its decision, which reads only its
/// own viewshed, the player's position and the map index of the turn.
pub open spec fn ai_rel(w0: World, w1: World) -> bool {
    &&& forall|e: int| 0 <= e < w0.n() ==> #[trigger] w1.wants_melee@[e] == ai_wants(w0, e)
    &&& forall|e: int| 0 <= e < w0.n() ==> #[trigger] w1.positions@[e] == ai_pos(w0, e)
    &&& forall|e: int| 0 <= e < w0.n() ==> ai_view_ok(w0, e, #[trigger] w1.viewsheds@[e])
    &&& w1.alive == w0.alive
    &&& w1.renderables == w0.renderables
    &&& w1.players == w0.players
    &&& w1.monsters == w0.monsters
    &&& w1.names == w0.names
    &&& w1.blocks_tile == w0.blocks_tile
    &&& w1.combat_stats == w0.combat_stats
    &&& w1.items == w0.items
    &&& w1.potions == w0.potions
    &&& w1.in_backpack == w0.in_backpack
    &&& w1.wants_pickup == w0.wants_pickup
    &&& w1.wants_drop == w0.wants_drop
    &&& w1.wants_drink == w0.wants_drink
    &&& w1.suffer_damage == w0.suffer_damage
    &&& w1.to_delete == w0.to_delete
    &&& w1.map == w0.map
    &&& w1.player_entity == w0.player_entity
    &&& w1.player_pos == w0.player_pos
    &&& w1.run_state == w0.run_state
    &&& w1.log == w0.log
}

/// Linear scan for the player's tile in a viewshed list.
pub fn contains_pos(v: &Vec<Position>, p: Position) -> (r: bool)
    ensures
        r == v@.contains(p),
{
    let mut k: usize = 0;
    while k < v.len()
        invariant
            k <= v@.len(),
            forall|j: int| 0 <= j < k ==> v@[j] != p,
        decreases v@.len() - k,
    {
        if v[k].x == p.x && v[k].y == p.y {
            proof {
                assert(v@[k as int] == p);
            }
            return true;
        }
        k = k + 1;
    }
    proof {
        assert(!v@.contains(p));
    }
    false
}

/// Linear scan for the first combat-capable occupant of a tile.
pub(crate) fn first_combatant(ecs: &World, t: usize) -> (r: Option<usize>)
    requires
        ecs.wf(),
        t < 4000,
    ensures
        r == first_combatant_from(*ecs, ecs.map.tile_content@[t as int]@, 0),
{
    let list = &ecs.map.tile_content[t];
    let mut j: usize = 0;
    while j < list.len()
        invariant
            ecs.wf(),
            t < 4000,
            list@ == ecs.map.tile_content@[t as int]@,
            j <= list@.len(),
            first_combatant_from(*ecs, list@, 0) == first_combatant_from(*ecs, list@, j as int),
        decreases list@.len() - j,
    {
        let ent = list[j];
        let has_stats = match &ecs.combat_stats[ent] {
            Some(_) => true,
            None => false,
        };
        if has_stats {
            return Some(ent);
        }
        j = j + 1;
    }
    None
}

pub struct MonsterAI {}

impl MonsterAI {
    /// Runs every monster's decision for the pass.
    pub fn run(ecs: &mut World)
        requires
            old(ecs).wf(),
            old(ecs).intents_valid(),
        ensures
            final(ecs).wf(),
            final(ecs).intents_valid(),
            ai_rel(*old(ecs), *final(ecs)),
    {
        let n = ecs.alive.len();
        let player_entity = ecs.player_entity;
        let player_pos = ecs.player_pos;
        let mut e: usize = 0;
        while e < n
            invariant
                old(ecs).wf(),
                old(ecs).intents_valid(),
                ecs.wf(),
                ecs.intents_valid(),
                n as int == old(ecs).n(),
                e <= n,
                player_entity == old(ecs).player_entity,
                player_pos == old(ecs).player_pos,
                forall|i: int| 0 <= i < e ==> #[trigger] ecs.wants_melee@[i] == ai_wants(
                    *old(ecs),
                    i,
                ),
                forall|i: int| e <= i < old(ecs).n()
                    ==> #[trigger] ecs.wants_melee@[i] == old(ecs).wants_melee@[i],
                forall|i: int| 0 <= i < e ==> #[trigger] ecs.positions@[i] == ai_pos(*old(ecs), i),
                forall|i: int| e <= i < old(ecs).n()
                    ==> #[trigger] ecs.positions@[i] == old(ecs).positions@[i],
                forall|i: int| 0 <= i < e ==> ai_view_ok(
                    *old(ecs),
                    i,
                    #[trigger] ecs.viewsheds@[i],
                ),
                forall|i: int| e <= i < old(ecs).n()
                    ==> #[trigger] ecs.viewsheds@[i] == old(ecs).viewsheds@[i],
                ecs.alive == old(ecs).alive,
                ecs.renderables == old(ecs).renderables,
                ecs.players == old(ecs).players,
                ecs.monsters == old(ecs).monsters,
                ecs.names == old(ecs).names,
                ecs.blocks_tile == old(ecs).blocks_tile,
                ecs.combat_stats == old(ecs).combat_stats,
                ecs.items == old(ecs).items,
                ecs.potions == old(ecs).potions,
                ecs.in_backpack == old(ecs).in_backpack,
                ecs.wants_pickup == old(ecs).wants_pickup,
                ecs.wants_drop == old(ecs).wants_drop,
                ecs.wants_drink == old(ecs).wants_drink,
                ecs.suffer_damage == old(ecs).suffer_damage,
                ecs.to_delete == old(ecs).to_delete,
                ecs.map == old(ecs).map,
                ecs.player_entity == old(ecs).player_entity,
                ecs.player_pos == old(ecs).player_pos,
                ecs.run_state == old(ecs).run_state,
                ecs.log == old(ecs).log,
            decreases n - e,
        {
            let ghost w0 = *old(ecs);
            let decision: Option<(Position, i32)> = if ecs.monsters[e] {
                match (&ecs.viewsheds[e], &ecs.positions[e]) {
                    (Some(vs), Some(p)) => {
                        if contains_pos(&vs.visible_tiles, player_pos) {
                            Some((*p, vs.range))
                        } else {
                            None
                        }
                    },
                    _ => None,
                }
            } else {
                None
            };
            match decision {
                Some((p, _range)) => {
                    assert(ai_acts(w0, e as int));
                    let dx = player_pos.x - p.x;
                    let dy = player_pos.y - p.y;
                    proof {
                        assert(0 <= dx * dx <= 6400 && 0 <= dy * dy <= 6400) by (nonlinear_arith)
                            requires
                                -80 <= dx <= 80,
                                -80 <= dy <= 80,
                        ;
                    }
                    let d2 = dx * dx + dy * dy;
                    proof {
                        assert(d2 == dist2_to_player(w0, e as int));
                    }
                    if d2 <= 2 {
                        ecs.wants_melee.set(e, Some(player_entity));
                    } else {
                        let adx = if dx >= 0 { dx } else { -dx };
                        let ady = if dy >= 0 { dy } else { -dy };
                        let (nx, ny) = if adx >= ady {
                            (p.x + (if dx > 0 { 1 } else if dx < 0 { -1 } else { 0 }), p.y)
                        } else {
                            (p.x, p.y + (if dy > 0 { 1 } else if dy < 0 { -1 } else { 0 }))
                        };
                        proof {
                            assert((nx as int, ny as int) == ai_dest(w0, e as int));
                            assert(0 <= nx < 80 && 0 <= ny < 50);
                        }
                        let t = ecs.map.xy_idx(nx, ny);
                        let target = first_combatant(ecs, t);
                        proof {
                            lemma_first_combatant_same(
                                w0,
                                *ecs,
                                ecs.map.tile_content@[t as int]@,
                                0,
                            );
                        }
                        match target {
                            Some(tgt) => {
                                proof {
                                    lemma_first_combatant_stats(
                                        *ecs,
                                        ecs.map.tile_content@[t as int]@,
                                        0,
                                    );
                                    let s_ = ecs.map.tile_content@[t as int]@;
                                    let jj = choose|jj: int|
                                        0 <= jj < s_.len() && #[trigger] s_[jj] == tgt;
                                    assert(ecs.map.tile_content@[t as int]@[jj] < ecs.n());
                                    assert((tgt as int) < ecs.n());
                                }
                                ecs.wants_melee.set(e, Some(tgt));
                            },
                            None => {
                                if !ecs.map.blocked[t] {
                                    assert(ai_moves(w0, e as int));
                                    proof {
                                        assert(w0.viewsheds@[e as int].is_some());
                                        assert(0 <= w0.viewsheds@[e as int].unwrap().range
                                            <= 0x7FFF);
                                        assert(_range == w0.viewsheds@[e as int].unwrap().range);
                                        assert(w0.positions@[e as int].is_some());
                                        assert(w0.in_backpack@[e as int] is None);
                                    }
                                    ecs.positions.set(e, Some(Position { x: nx, y: ny }));
                                    let fresh: Vec<Position> = Vec::new();
                                    assert(fresh@ == Seq::<Position>::empty());
                                    ecs.viewsheds.set(
                                        e,
                                        Some(
                                            Viewshed {
                                                visible_tiles: fresh,
                                                range: _range,
                                                dirty: true,
                                            },
                                        ),
                                    );
                                } else {
                                    assert(!ai_moves(w0, e as int));
                                }
                            },
                        }
                    }
                },
                None => {
                    assert(!ai_acts(w0, e as int));
                },
            }
            e = e + 1;
        }
    }
}

/// The occupant scan consults only the statistics table: two worlds
/// agreeing there scan alike.
pub proof fn lemma_first_combatant_same(w0: World, w1: World, s: Seq<usize>, j: int)
    requires
        w1.combat_stats@ == w0.combat_stats@,
    ensures
        first_combatant_from(w1, s, j) == first_combatant_from(w0, s, j),
    decreases s.len() - j,
{
    if !(j < 0 || j >= s.len()) {
        lemma_first_combatant_same(w0, w1, s, j + 1);
    }
}

/// The entity a successful occupant scan returns has combat statistics.
pub proof fn lemma_first_combatant_stats(w: World, s: Seq<usize>, j: int)
    requires
        first_combatant_from(w, s, j) is Some,
    ensures
        w.combat_stats@[first_combatant_from(w, s, j).unwrap() as int].is_some(),
        s.contains(first_combatant_from(w, s, j).unwrap()),
    decreases s.len() - j,
{
    if !(j < 0 || j >= s.len()) {
        if !w.combat_stats@[s[j] as int].is_some() {
            lemma_first_combatant_stats(w, s, j + 1);
        }
    }
}

} // verus!
