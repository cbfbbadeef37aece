//! The map indexer: rebuilds the blocked-tile array and the per-tile
//! occupant lists from the current positions, every turn, before any system
//! that queries blocking or occupancy.

use vstd::prelude::*;
use crate::map::{spec_xy_idx, TileType};
use crate::world::World;

verus! {

/// Entity `e` stands on tile `t`.
pub open spec fn occupies(w: World, e: int, t: int) -> bool {
    &&& w.positions@[e].is_some()
    &&& spec_xy_idx(
        w.positions@[e].unwrap().x as int,
        w.positions@[e].unwrap().y as int,
    ) == t
}

/// Some entity among the first `k` stands on tile `t` and carries the
/// blocking marker.
pub open spec fn blocked_by_upto(w: World, t: int, k: int) -> bool
    decreases k,
{
    if k <= 0 {
        false
    } else {
        blocked_by_upto(w, t, k - 1) || (occupies(w, k - 1, t) && w.blocks_tile@[k - 1])
    }
}

/// What the indexer computes for the blocked array at tile `t`: a wall, or
/// an occupant carrying the blocking marker.
pub open spec fn blocked_spec(w: World, t: int) -> bool {
    w.map.tiles@[t] == TileType::Wall || blocked_by_upto(w, t, w.n())
}

/// The occupants of tile `t` among the first `k` entities, in id order.
pub open spec fn occupants_upto(w: World, t: int, k: int) -> Seq<usize>
    decreases k,
{
    if k <= 0 {
        Seq::empty()
    } else if occupies(w, k - 1, t) {
        occupants_upto(w, t, k - 1).push((k - 1) as usize)
    } else {
        occupants_upto(w, t, k - 1)
    }
}

/// The exact effect of one indexer run: the blocked array and the occupant
/// index are functions of the old world, and nothing else moves.
pub open spec fn indexer_rel(w0: World, w1: World) -> bool {
    &&& forall|t: int| 0 <= t < 4000 ==> #[trigger] w1.map.blocked@[t] == blocked_spec(w0, t)
    &&& forall|t: int| 0 <= t < 4000
        ==> (#[trigger] w1.map.tile_content@[t])@ == occupants_upto(w0, t, w0.n())
    &&& w1.map.tiles == w0.map.tiles
    &&& w1.map.rooms == w0.map.rooms
    &&& w1.map.revealed_tiles == w0.map.revealed_tiles
    &&& w1.map.visible_tiles == w0.map.visible_tiles
    &&& w1.map.width == w0.map.width
    &&& w1.map.height == w0.map.height
    &&& w1.alive == w0.alive
    &&& w1.positions == w0.positions
    &&& w1.renderables == w0.renderables
    &&& w1.players == w0.players
    &&& w1.monsters == w0.monsters
    &&& w1.names == w0.names
    &&& w1.viewsheds == w0.viewsheds
    &&& w1.blocks_tile == w0.blocks_tile
    &&& w1.combat_stats == w0.combat_stats
    &&& w1.items == w0.items
    &&& w1.potions == w0.potions
    &&& w1.in_backpack == w0.in_backpack
    &&& w1.wants_melee == w0.wants_melee
    &&& w1.wants_pickup == w0.wants_pickup
    &&& w1.wants_drop == w0.wants_drop
    &&& w1.wants_drink == w0.wants_drink
    &&& w1.suffer_damage == w0.suffer_damage
    &&& w1.to_delete == w0.to_delete
    &&& w1.player_entity == w0.player_entity
    &&& w1.player_pos == w0.player_pos
    &&& w1.run_state == w0.run_state
    &&& w1.log == w0.log
}

pub struct MapIndexingSystem {}

impl MapIndexingSystem {
    /// Rebuilds `blocked` to exactly "wall or blocking occupant" and every
    /// tile's occupant list to exactly the entities standing there, in id
    /// order.
    pub fn run(ecs: &mut World)
        requires
            old(ecs).wf(),
        ensures
            final(ecs).wf(),
            indexer_rel(*old(ecs), *final(ecs)),
    {
        let n = ecs.alive.len();
        let mut t: usize = 0;
        while t < 4000
            invariant
                old(ecs).wf(),
                ecs.wf(),
                n as int == old(ecs).n(),
                t <= 4000,
                forall|u: int| 0 <= u < t ==> #[trigger] ecs.map.blocked@[u] == blocked_spec(
                    *old(ecs),
                    u,
                ),
                forall|u: int| 0 <= u < t ==> (#[trigger] ecs.map.tile_content@[u])@
                    == occupants_upto(*old(ecs), u, old(ecs).n()),
                ecs.map.tiles == old(ecs).map.tiles,
                ecs.map.rooms == old(ecs).map.rooms,
                ecs.map.revealed_tiles == old(ecs).map.revealed_tiles,
                ecs.map.visible_tiles == old(ecs).map.visible_tiles,
                ecs.map.width == old(ecs).map.width,
                ecs.map.height == old(ecs).map.height,
                ecs.alive == old(ecs).alive,
                ecs.positions == old(ecs).positions,
                ecs.renderables == old(ecs).renderables,
                ecs.players == old(ecs).players,
                ecs.monsters == old(ecs).monsters,
                ecs.names == old(ecs).names,
                ecs.viewsheds == old(ecs).viewsheds,
                ecs.blocks_tile == old(ecs).blocks_tile,
                ecs.combat_stats == old(ecs).combat_stats,
                ecs.items == old(ecs).items,
                ecs.potions == old(ecs).potions,
                ecs.in_backpack == old(ecs).in_backpack,
                ecs.wants_melee == old(ecs).wants_melee,
                ecs.wants_pickup == old(ecs).wants_pickup,
                ecs.wants_drop == old(ecs).wants_drop,
                ecs.wants_drink == old(ecs).wants_drink,
                ecs.suffer_damage == old(ecs).suffer_damage,
                ecs.to_delete == old(ecs).to_delete,
                ecs.player_entity == old(ecs).player_entity,
                ecs.player_pos == old(ecs).player_pos,
                ecs.run_state == old(ecs).run_state,
                ecs.log == old(ecs).log,
            decreases 4000 - t,
        {
            let is_wall = match ecs.map.tiles[t] {
                TileType::Wall => true,
                TileType::Floor => false,
            };
            let mut blk = is_wall;
            let mut list: Vec<usize> = Vec::new();
            assert(list@ == occupants_upto(*old(ecs), t as int, 0));
            let mut e: usize = 0;
            while e < n
                invariant
                    old(ecs).wf(),
                    ecs.wf(),
                    n as int == old(ecs).n(),
                    e <= n,
                    t < 4000,
                    ecs.positions == old(ecs).positions,
                    ecs.blocks_tile == old(ecs).blocks_tile,
                    ecs.map.tiles == old(ecs).map.tiles,
                    is_wall == (old(ecs).map.tiles@[t as int] == TileType::Wall),
                    blk == (is_wall || blocked_by_upto(*old(ecs), t as int, e as int)),
                    list@ == occupants_upto(*old(ecs), t as int, e as int),
                decreases n - e,
            {
                let pos = ecs.positions[e];
                match pos {
                    Some(p) => {
                        let idx = ecs.map.xy_idx(p.x, p.y);
                        if idx == t {
                            assert(occupies(*old(ecs), e as int, t as int));
                            list.push(e);
                            if ecs.blocks_tile[e] {
                                blk = true;
                            }
                        } else {
                            assert(!occupies(*old(ecs), e as int, t as int));
                        }
                    },
                    None => {
                        assert(!occupies(*old(ecs), e as int, t as int));
                    },
                }
                e = e + 1;
            }
            proof {
                lemma_occupants_bounded(*old(ecs), t as int, old(ecs).n());
            }
            ecs.map.tile_content.set(t, list);
            ecs.map.blocked.set(t, blk);
            t = t + 1;
        }
    }
}

/// Every listed occupant is an entity id below `k`.
pub proof fn lemma_occupants_bounded(w: World, t: int, k: int)
    requires
        0 <= k,
    ensures
        forall|j: int| 0 <= j < occupants_upto(w, t, k).len()
            ==> #[trigger] occupants_upto(w, t, k)[j] < k,
    decreases k,
{
    if k > 0 {
        lemma_occupants_bounded(w, t, k - 1);
        assert forall|j: int| 0 <= j < occupants_upto(w, t, k).len()
            implies #[trigger] occupants_upto(w, t, k)[j] < k by {
            if occupies(w, k - 1, t) {
                assert(occupants_upto(w, t, k) == occupants_upto(w, t, k - 1).push(
                    (k - 1) as usize,
                ));
            }
        }
    }
}

/// The occupant lists and the blocked computation depend only on tiles,
/// positions and blocking markers; two worlds agreeing there index alike.
pub proof fn lemma_index_inputs_same(w0: World, w1: World, t: int, k: int)
    requires
        w1.positions@ == w0.positions@,
        w1.blocks_tile@ == w0.blocks_tile@,
    ensures
        occupants_upto(w1, t, k) == occupants_upto(w0, t, k),
        blocked_by_upto(w1, t, k) == blocked_by_upto(w0, t, k),
    decreases k,
{
    if k > 0 {
        lemma_index_inputs_same(w0, w1, t, k - 1);
    }
}

/// Running the map indexer twice in a row with no position changes in
/// between produces identical blocked and occupant arrays.
pub proof fn law_indexer_idempotent(w0: World, w1: World, w2: World)
    requires
        w0.wf(),
        indexer_rel(w0, w1),
        indexer_rel(w1, w2),
    ensures
        forall|t: int| 0 <= t < 4000 ==> #[trigger] w2.map.blocked@[t] == w1.map.blocked@[t],
        forall|t: int| 0 <= t < 4000
            ==> (#[trigger] w2.map.tile_content@[t])@ == w1.map.tile_content@[t]@,
{
    assert(w1.n() == w0.n());
    assert forall|t: int| 0 <= t < 4000 implies #[trigger] w2.map.blocked@[t]
        == w1.map.blocked@[t] by {
        lemma_index_inputs_same(w0, w1, t, w0.n());
        assert(w1.map.tiles@[t] == w0.map.tiles@[t]);
    }
    assert forall|t: int| 0 <= t < 4000 implies (#[trigger] w2.map.tile_content@[t])@
        == w1.map.tile_content@[t]@ by {
        lemma_index_inputs_same(w0, w1, t, w0.n());
    }
}

} // verus!
