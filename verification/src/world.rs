//! The entity/component/resource store.  Each component type is a sparse
//! table from entity id to value, held as a vector parallel to `alive`;
//! presence of a value is what attaches the component.  Entity ids are never
//! reused, and deletion is deferred to an explicit maintenance point.

use vstd::prelude::*;
use crate::components::{CombatStats, Position, Potion, Renderable, Viewshed};
use crate::game_log::GameLog;
use crate::map::GameMap;
use crate::state::RunState;

verus! {

/// Hard cap on the number of entity slots; it keeps every damage sum of one
/// pass inside `i32`.
pub const MAX_ENTITIES: usize = 0x8000;

/// The whole mutable world: the component tables plus the shared resources
/// (map, player handle, run-state, log) that the systems read and write.
pub struct World {
    /// False once the entity has been deleted; ids are never reused.
    pub alive: Vec<bool>,
    pub positions: Vec<Option<Position>>,
    pub renderables: Vec<Option<Renderable>>,
    /// Marker: the single user-controlled actor.
    pub players: Vec<bool>,
    /// Marker: an autonomous actor.
    pub monsters: Vec<bool>,
    /// Display names; retained after deletion so logged events stay
    /// renderable.
    pub names: Vec<Option<String>>,
    pub viewsheds: Vec<Option<Viewshed>>,
    /// Marker: the map indexer blocks the entity's tile.
    pub blocks_tile: Vec<bool>,
    pub combat_stats: Vec<Option<CombatStats>>,
    /// Marker: the entity can be picked up.
    pub items: Vec<bool>,
    pub potions: Vec<Option<Potion>>,
    /// The carrying entity, when the item is in a backpack instead of on the
    /// map.
    pub in_backpack: Vec<Option<usize>>,
    /// One-shot intent: attack the named target this pass.
    pub wants_melee: Vec<Option<usize>>,
    /// One-shot intent: pick the named item up.
    pub wants_pickup: Vec<Option<usize>>,
    /// One-shot intent: drop the named item here.
    pub wants_drop: Vec<Option<usize>>,
    /// One-shot intent: drink the named potion.
    pub wants_drink: Vec<Option<usize>>,
    /// Pending damage amounts; an empty list means none is pending.
    pub suffer_damage: Vec<Vec<i32>>,
    /// Entities scheduled for deletion at the next maintenance point.
    pub to_delete: Vec<usize>,
    pub map: GameMap,
    pub player_entity: usize,
    /// Mirror of the player's position, kept in step by movement.
    pub player_pos: Position,
    pub run_state: RunState,
    pub log: GameLog,
}

impl World {
    /// Number of entity slots ever created.
    pub open spec fn n(self) -> int {
        self.alive@.len() as int
    }

    /// Shape and value invariant of the store alone, without any claim about
    /// the player; it holds already while the world is being populated.
    pub open spec fn store_wf(self) -> bool {
        let n = self.n();
        &&& n <= 0x8000
        &&& self.positions@.len() == n
        &&& self.renderables@.len() == n
        &&& self.players@.len() == n
        &&& self.monsters@.len() == n
        &&& self.names@.len() == n
        &&& self.viewsheds@.len() == n
        &&& self.blocks_tile@.len() == n
        &&& self.combat_stats@.len() == n
        &&& self.items@.len() == n
        &&& self.potions@.len() == n
        &&& self.in_backpack@.len() == n
        &&& self.wants_melee@.len() == n
        &&& self.wants_pickup@.len() == n
        &&& self.wants_drop@.len() == n
        &&& self.wants_drink@.len() == n
        &&& self.suffer_damage@.len() == n
        &&& self.map.wf()
        &&& forall|e: int| 0 <= e < n && self.positions@[e].is_some() ==> {
            &&& 0 <= self.positions@[e].unwrap().x < 80
            &&& 0 <= self.positions@[e].unwrap().y < 50
        }
        &&& forall|e: int| 0 <= e < n && self.combat_stats@[e].is_some()
            ==> (#[trigger] self.combat_stats@[e]).unwrap().valid()
        &&& forall|e: int| 0 <= e < n && self.viewsheds@[e].is_some()
            ==> 0 <= (#[trigger] self.viewsheds@[e]).unwrap().range <= 0x7FFF
        &&& forall|e: int, k: int| 0 <= e < n && 0 <= k < self.suffer_damage@[e]@.len()
            ==> 0 <= #[trigger] self.suffer_damage@[e]@[k] <= 0x7FFF
        &&& forall|e: int| 0 <= e < n && self.in_backpack@[e].is_some()
            ==> (#[trigger] self.in_backpack@[e]).unwrap() < n
        &&& forall|e: int| 0 <= e < n && self.wants_melee@[e].is_some()
            ==> (#[trigger] self.wants_melee@[e]).unwrap() < n
        &&& forall|e: int| 0 <= e < n && self.wants_pickup@[e].is_some()
            ==> (#[trigger] self.wants_pickup@[e]).unwrap() < n
        &&& forall|e: int| 0 <= e < n && self.wants_drop@[e].is_some()
            ==> (#[trigger] self.wants_drop@[e]).unwrap() < n
        &&& forall|e: int| 0 <= e < n && self.wants_drink@[e].is_some()
            ==> (#[trigger] self.wants_drink@[e]).unwrap() < n
        &&& forall|i: int| 0 <= i < self.to_delete@.len() ==> #[trigger] self.to_delete@[i] < n
        &&& forall|t: int, j: int|
            0 <= t < 4000 && 0 <= j < self.map.tile_content@[t]@.len()
                ==> #[trigger] self.map.tile_content@[t]@[j] < n
        &&& forall|e: int| 0 <= e < n ==> !(#[trigger] self.players@[e] && self.monsters@[e])
        &&& forall|e: int| 0 <= e < n && self.combat_stats@[e].is_some()
            ==> self.names@[e].is_some()
        &&& forall|e: int| 0 <= e < n && self.potions@[e].is_some() ==> self.names@[e].is_some()
        &&& forall|e: int| 0 <= e < n && self.potions@[e].is_some()
            ==> 0 <= (#[trigger] self.potions@[e]).unwrap().amount <= 0x7FFF
        &&& forall|e: int| 0 <= e < n
            ==> !(#[trigger] self.positions@[e].is_some() && self.in_backpack@[e].is_some())
    }

    /// Full invariant: a well-formed store with the single player entity in
    /// place.  Every system requires and preserves it.
    pub open spec fn wf(self) -> bool {
        &&& self.store_wf()
        &&& (self.player_entity as int) < self.n()
        &&& self.alive@[self.player_entity as int]
        &&& self.players@[self.player_entity as int]
        &&& forall|e: int| 0 <= e < self.n() && #[trigger] self.players@[e]
            ==> e == self.player_entity as int
        &&& self.positions@[self.player_entity as int] == Some(self.player_pos)
        &&& self.combat_stats@[self.player_entity as int].is_some()
        &&& self.potions@[self.player_entity as int].is_none()
        &&& !self.items@[self.player_entity as int]
        &&& self.in_backpack@[self.player_entity as int].is_none()
    }

    /// Sum of one entity's pending damage.
    pub open spec fn suffer_sum(self, e: int) -> int {
        seq_sum(self.suffer_damage@[e]@)
    }

    /// No pending damage anywhere: holds at every turn boundary, because the
    /// damage resolver clears every accumulator each pass.
    pub open spec fn suffer_clear(self) -> bool {
        forall|e: int| 0 <= e < self.n() ==> (#[trigger] self.suffer_damage@[e])@.len() == 0
    }

    /// No deletion is pending: holds at every turn boundary.
    pub open spec fn no_pending_deletes(self) -> bool {
        self.to_delete@.len() == 0
    }

    /// Everyone dead has been swept: only the player may stand at `hp < 1`.
    /// Holds at every turn boundary because the mortality sweep ends every
    /// tick.
    pub open spec fn no_undead(self) -> bool {
        forall|e: int|
            0 <= e < self.n() && (#[trigger] self.combat_stats@[e]) is Some
                && self.combat_stats@[e].unwrap().hp < 1 ==> e == self.player_entity as int
    }

    /// Every pending intent refers to entities that its resolver may rely
    /// on: melee targets have combat statistics, droppers stand on the map
    /// and drop named backpack items, and pickups name non-player items.
    pub open spec fn intents_valid(self) -> bool {
        let n = self.n();
        &&& forall|a: int| 0 <= a < n && self.wants_melee@[a].is_some()
            ==> self.combat_stats@[(#[trigger] self.wants_melee@[a]).unwrap() as int].is_some()
        &&& forall|d: int| 0 <= d < n && (#[trigger] self.wants_drop@[d]).is_some() ==> {
            &&& self.positions@[d].is_some()
            &&& !self.items@[d]
            &&& self.in_backpack@[self.wants_drop@[d].unwrap() as int].is_some()
            &&& self.names@[self.wants_drop@[d].unwrap() as int].is_some()
        }
        &&& forall|c: int| 0 <= c < n && (#[trigger] self.wants_pickup@[c]).is_some() ==> {
            &&& self.items@[self.wants_pickup@[c].unwrap() as int]
            &&& !self.players@[self.wants_pickup@[c].unwrap() as int]
        }
    }

    /// An empty world around a fresh all-wall map.
    pub fn new() -> (w: World)
        ensures
            w.store_wf(),
            w.n() == 0,
            w.run_state == RunState::PreRun,
            w.log.entries@ == Seq::<crate::game_log::LogEntry>::empty(),
            w.to_delete@.len() == 0,
    {
        World {
            alive: Vec::new(),
            positions: Vec::new(),
            renderables: Vec::new(),
            players: Vec::new(),
            monsters: Vec::new(),
            names: Vec::new(),
            viewsheds: Vec::new(),
            blocks_tile: Vec::new(),
            combat_stats: Vec::new(),
            items: Vec::new(),
            potions: Vec::new(),
            in_backpack: Vec::new(),
            wants_melee: Vec::new(),
            wants_pickup: Vec::new(),
            wants_drop: Vec::new(),
            wants_drink: Vec::new(),
            suffer_damage: Vec::new(),
            to_delete: Vec::new(),
            map: GameMap::new(),
            player_entity: 0,
            player_pos: Position { x: 0, y: 0 },
            run_state: RunState::PreRun,
            log: GameLog::new(),
        }
    }

    /// Creates a fresh entity slot with no components attached and returns
    /// its id.
    pub fn spawn(&mut self) -> (e: usize)
        requires
            old(self).store_wf(),
            old(self).n() < 0x8000,
        ensures
            final(self).store_wf(),
            e as int == old(self).n(),
            final(self).n() == old(self).n() + 1,
            final(self).alive@ == old(self).alive@.push(true),
            final(self).positions@ == old(self).positions@.push(None),
            final(self).renderables@ == old(self).renderables@.push(None),
            final(self).players@ == old(self).players@.push(false),
            final(self).monsters@ == old(self).monsters@.push(false),
            final(self).names@ == old(self).names@.push(None),
            final(self).viewsheds@ == old(self).viewsheds@.push(None),
            final(self).blocks_tile@ == old(self).blocks_tile@.push(false),
            final(self).combat_stats@ == old(self).combat_stats@.push(None),
            final(self).items@ == old(self).items@.push(false),
            final(self).potions@ == old(self).potions@.push(None),
            final(self).in_backpack@ == old(self).in_backpack@.push(None),
            final(self).wants_melee@ == old(self).wants_melee@.push(None),
            final(self).wants_pickup@ == old(self).wants_pickup@.push(None),
            final(self).wants_drop@ == old(self).wants_drop@.push(None),
            final(self).wants_drink@ == old(self).wants_drink@.push(None),
            final(self).suffer_damage@.len() == old(self).n() + 1,
            forall|i: int| 0 <= i < old(self).n()
                ==> final(self).suffer_damage@[i] == old(self).suffer_damage@[i],
            final(self).suffer_damage@[old(self).n()]@ == Seq::<i32>::empty(),
            final(self).to_delete == old(self).to_delete,
            final(self).map == old(self).map,
            final(self).player_entity == old(self).player_entity,
            final(self).player_pos == old(self).player_pos,
            final(self).run_state == old(self).run_state,
            final(self).log == old(self).log,
    {
        let e = self.alive.len();
        self.alive.push(true);
        self.positions.push(None);
        self.renderables.push(None);
        self.players.push(false);
        self.monsters.push(false);
        self.names.push(None);
        self.viewsheds.push(None);
        self.blocks_tile.push(false);
        self.combat_stats.push(None);
        self.items.push(false);
        self.potions.push(None);
        self.in_backpack.push(None);
        self.wants_melee.push(None);
        self.wants_pickup.push(None);
        self.wants_drop.push(None);
        self.wants_drink.push(None);
        let fresh: Vec<i32> = Vec::new();
        assert(fresh@ == Seq::<i32>::empty());
        self.suffer_damage.push(fresh);
        e
    }

    /// Detaches every component of `e` (its name is retained for the log)
    /// and marks the slot dead.  The player is never cleared.
    pub fn clear_entity(&mut self, e: usize)
        requires
            old(self).wf(),
            (e as int) < old(self).n(),
            e != old(self).player_entity,
        ensures
            final(self).wf(),
            final(self).n() == old(self).n(),
            final(self).alive@ == old(self).alive@.update(e as int, false),
            final(self).positions@ == old(self).positions@.update(e as int, None),
            final(self).renderables@ == old(self).renderables@.update(e as int, None),
            final(self).players@ == old(self).players@.update(e as int, false),
            final(self).monsters@ == old(self).monsters@.update(e as int, false),
            final(self).names@ == old(self).names@,
            final(self).viewsheds@ == old(self).viewsheds@.update(e as int, None),
            final(self).blocks_tile@ == old(self).blocks_tile@.update(e as int, false),
            final(self).combat_stats@ == old(self).combat_stats@.update(e as int, None),
            final(self).items@ == old(self).items@.update(e as int, false),
            final(self).potions@ == old(self).potions@.update(e as int, None),
            final(self).in_backpack@ == old(self).in_backpack@.update(e as int, None),
            final(self).wants_melee@ == old(self).wants_melee@.update(e as int, None),
            final(self).wants_pickup@ == old(self).wants_pickup@.update(e as int, None),
            final(self).wants_drop@ == old(self).wants_drop@.update(e as int, None),
            final(self).wants_drink@ == old(self).wants_drink@.update(e as int, None),
            final(self).suffer_damage@.len() == old(self).n(),
            forall|i: int| 0 <= i < old(self).n() && i != e as int
                ==> final(self).suffer_damage@[i] == old(self).suffer_damage@[i],
            final(self).suffer_damage@[e as int]@ == Seq::<i32>::empty(),
            final(self).to_delete == old(self).to_delete,
            final(self).map == old(self).map,
            final(self).player_entity == old(self).player_entity,
            final(self).player_pos == old(self).player_pos,
            final(self).run_state == old(self).run_state,
            final(self).log == old(self).log,
    {
        self.alive.set(e, false);
        self.positions.set(e, None);
        self.renderables.set(e, None);
        self.players.set(e, false);
        self.monsters.set(e, false);
        self.viewsheds.set(e, None);
        self.blocks_tile.set(e, false);
        self.combat_stats.set(e, None);
        self.items.set(e, false);
        self.potions.set(e, None);
        self.in_backpack.set(e, None);
        self.wants_melee.set(e, None);
        self.wants_pickup.set(e, None);
        self.wants_drop.set(e, None);
        self.wants_drink.set(e, None);
        let fresh: Vec<i32> = Vec::new();
        assert(fresh@ == Seq::<i32>::empty());
        self.suffer_damage.set(e, fresh);
    }

    /// The exact effect of one maintenance step on world `w0`.
    pub open spec fn maintain_rel(w0: World, w1: World) -> bool {
        &&& w1.no_pending_deletes()
        &&& w1.n() == w0.n()
        &&& forall|e: int| 0 <= e < w0.n() ==> #[trigger] w1.alive@[e] == (w0.alive@[e]
            && !w0.to_delete@.contains(e as usize))
        &&& forall|e: int|
            0 <= e < w0.n() && !(#[trigger] w0.to_delete@.contains(e as usize)) ==> {
            &&& w1.positions@[e] == w0.positions@[e]
            &&& w1.renderables@[e] == w0.renderables@[e]
            &&& w1.players@[e] == w0.players@[e]
            &&& w1.monsters@[e] == w0.monsters@[e]
            &&& w1.viewsheds@[e] == w0.viewsheds@[e]
            &&& w1.blocks_tile@[e] == w0.blocks_tile@[e]
            &&& w1.combat_stats@[e] == w0.combat_stats@[e]
            &&& w1.items@[e] == w0.items@[e]
            &&& w1.potions@[e] == w0.potions@[e]
            &&& w1.in_backpack@[e] == w0.in_backpack@[e]
            &&& w1.wants_melee@[e] == w0.wants_melee@[e]
            &&& w1.wants_pickup@[e] == w0.wants_pickup@[e]
            &&& w1.wants_drop@[e] == w0.wants_drop@[e]
            &&& w1.wants_drink@[e] == w0.wants_drink@[e]
            &&& w1.suffer_damage@[e] == w0.suffer_damage@[e]
        }
        &&& forall|e: int|
            0 <= e < w0.n() && #[trigger] w0.to_delete@.contains(e as usize) ==> {
            &&& w1.positions@[e] is None
            &&& w1.combat_stats@[e] is None
            &&& !w1.players@[e]
            &&& !w1.monsters@[e]
            &&& w1.in_backpack@[e] is None
            &&& w1.potions@[e] is None
            &&& w1.wants_melee@[e] is None
            &&& w1.wants_pickup@[e] is None
            &&& w1.wants_drop@[e] is None
            &&& w1.wants_drink@[e] is None
            &&& w1.suffer_damage@[e]@ == Seq::<i32>::empty()
        }
        &&& w1.names@ == w0.names@
        &&& w1.map == w0.map
        &&& w1.player_entity == w0.player_entity
        &&& w1.player_pos == w0.player_pos
        &&& w1.run_state == w0.run_state
        &&& w1.log == w0.log
    }

    /// Applies every deferred deletion, then empties the queue.  This is the
    /// explicit maintenance boundary: no system ever iterates over a world
    /// with a half-removed entity.
    pub fn maintain(&mut self)
        requires
            old(self).wf(),
            forall|i: int| 0 <= i < old(self).to_delete@.len()
                ==> #[trigger] old(self).to_delete@[i] != old(self).player_entity,
        ensures
            final(self).wf(),
            World::maintain_rel(*old(self), *final(self)),
    {
        let mut i: usize = 0;
        let n = self.alive.len();
        while i < self.to_delete.len()
            invariant
                old(self).wf(),
                self.wf(),
                forall|k: int| 0 <= k < old(self).to_delete@.len()
                    ==> #[trigger] old(self).to_delete@[k] != old(self).player_entity,
                self.to_delete == old(self).to_delete,
                i <= self.to_delete@.len(),
                self.n() == old(self).n(),
                forall|e: int| 0 <= e < old(self).n() ==> #[trigger] self.alive@[e]
                    == (old(self).alive@[e]
                        && !old(self).to_delete@.subrange(0, i as int).contains(e as usize)),
                forall|e: int|
                    0 <= e < old(self).n()
                        && !(#[trigger] old(self).to_delete@.subrange(0, i as int).contains(
                        e as usize,
                    )) ==> {
                    &&& self.positions@[e] == old(self).positions@[e]
                    &&& self.renderables@[e] == old(self).renderables@[e]
                    &&& self.players@[e] == old(self).players@[e]
                    &&& self.monsters@[e] == old(self).monsters@[e]
                    &&& self.viewsheds@[e] == old(self).viewsheds@[e]
                    &&& self.blocks_tile@[e] == old(self).blocks_tile@[e]
                    &&& self.combat_stats@[e] == old(self).combat_stats@[e]
                    &&& self.items@[e] == old(self).items@[e]
                    &&& self.potions@[e] == old(self).potions@[e]
                    &&& self.in_backpack@[e] == old(self).in_backpack@[e]
                    &&& self.wants_melee@[e] == old(self).wants_melee@[e]
                    &&& self.wants_pickup@[e] == old(self).wants_pickup@[e]
                    &&& self.wants_drop@[e] == old(self).wants_drop@[e]
                    &&& self.wants_drink@[e] == old(self).wants_drink@[e]
                    &&& self.suffer_damage@[e] == old(self).suffer_damage@[e]
                },
                forall|e: int|
                    0 <= e < old(self).n()
                        && #[trigger] old(self).to_delete@.subrange(0, i as int).contains(
                        e as usize,
                    ) ==> {
                    &&& self.positions@[e] is None
                    &&& self.combat_stats@[e] is None
                    &&& !self.players@[e]
                    &&& !self.monsters@[e]
                    &&& self.in_backpack@[e] is None
                    &&& self.potions@[e] is None
                    &&& self.wants_melee@[e] is None
                    &&& self.wants_pickup@[e] is None
                    &&& self.wants_drop@[e] is None
                    &&& self.wants_drink@[e] is None
                    &&& self.suffer_damage@[e]@ == Seq::<i32>::empty()
                },
                self.names@ == old(self).names@,
                self.map == old(self).map,
                self.player_entity == old(self).player_entity,
                self.player_pos == old(self).player_pos,
                self.run_state == old(self).run_state,
                self.log == old(self).log,
            decreases self.to_delete@.len() - i,
        {
            let victim = self.to_delete[i];
            let ghost pre = *self;
            self.clear_entity(victim);
            proof {
                let pre_sub = old(self).to_delete@.subrange(0, i as int);
                let post_sub = old(self).to_delete@.subrange(0, i as int + 1);
                assert(post_sub =~= pre_sub.push(victim));
                assert forall|x: usize|
                    #[trigger] post_sub.contains(x) <==> (pre_sub.contains(x) || x == victim) by {
                    lemma_push_contains(pre_sub, victim, x);
                }
                assert forall|e: int|
                    0 <= e < old(self).n() && post_sub.contains(e as usize) implies {
                    &&& self.positions@[e] is None
                    &&& self.combat_stats@[e] is None
                    &&& !self.players@[e]
                    &&& !self.monsters@[e]
                    &&& self.in_backpack@[e] is None
                    &&& self.potions@[e] is None
                    &&& self.wants_melee@[e] is None
                    &&& self.wants_pickup@[e] is None
                    &&& self.wants_drop@[e] is None
                    &&& self.wants_drink@[e] is None
                    &&& self.suffer_damage@[e]@ == Seq::<i32>::empty()
                } by {
                    if pre_sub.contains(e as usize) {
                        assert(pre.positions@[e] is None);
                        assert(pre.combat_stats@[e] is None);
                        assert(!pre.players@[e]);
                        assert(!pre.monsters@[e]);
                        assert(pre.in_backpack@[e] is None);
                        assert(pre.potions@[e] is None);
                        assert(pre.wants_melee@[e] is None);
                        assert(pre.wants_pickup@[e] is None);
                        assert(pre.wants_drop@[e] is None);
                        assert(pre.wants_drink@[e] is None);
                        assert(pre.suffer_damage@[e]@ == Seq::<i32>::empty());
                    } else {
                        assert(e as usize == victim);
                        assert(e == victim as int);
                    }
                }
            }
            i = i + 1;
        }
        proof {
            assert(old(self).to_delete@.subrange(0, old(self).to_delete@.len() as int)
                =~= old(self).to_delete@);
        }
        self.to_delete = Vec::new();
    }

}

/// The two worlds agree on every observable field: the component tables,
/// the map, the resources and the log.
pub open spec fn same_world(a: World, b: World) -> bool {
    &&& b.alive@ == a.alive@
    &&& b.positions@ == a.positions@
    &&& b.renderables@ == a.renderables@
    &&& b.players@ == a.players@
    &&& b.monsters@ == a.monsters@
    &&& b.names@ == a.names@
    &&& b.viewsheds@ == a.viewsheds@
    &&& b.blocks_tile@ == a.blocks_tile@
    &&& b.combat_stats@ == a.combat_stats@
    &&& b.items@ == a.items@
    &&& b.potions@ == a.potions@
    &&& b.in_backpack@ == a.in_backpack@
    &&& b.wants_melee@ == a.wants_melee@
    &&& b.wants_pickup@ == a.wants_pickup@
    &&& b.wants_drop@ == a.wants_drop@
    &&& b.wants_drink@ == a.wants_drink@
    &&& b.suffer_damage@ == a.suffer_damage@
    &&& b.to_delete@ == a.to_delete@
    &&& b.map.tiles@ == a.map.tiles@
    &&& b.map.rooms@ == a.map.rooms@
    &&& b.map.blocked@ == a.map.blocked@
    &&& b.map.tile_content@ == a.map.tile_content@
    &&& b.map.revealed_tiles@ == a.map.revealed_tiles@
    &&& b.map.visible_tiles@ == a.map.visible_tiles@
    &&& b.map.width == a.map.width
    &&& b.map.height == a.map.height
    &&& b.player_entity == a.player_entity
    &&& b.player_pos == a.player_pos
    &&& b.run_state == a.run_state
    &&& b.log.entries@ == a.log.entries@
}

/// Appending one amount adds exactly that amount to the sum.
pub proof fn lemma_seq_sum_push(s: Seq<i32>, v: i32)
    ensures
        seq_sum(s.push(v)) == seq_sum(s) + v,
{
    assert(s.push(v).drop_last() =~= s);
    assert(s.push(v).last() == v);
}

/// A list of amounts within the statistic cap has a sum between zero and
/// the cap times its length.
pub proof fn lemma_seq_sum_bounds(s: Seq<i32>)
    requires
        forall|j: int| 0 <= j < s.len() ==> 0 <= #[trigger] s[j] <= 0x7FFF,
    ensures
        0 <= seq_sum(s) <= s.len() * 0x7FFF,
    decreases s.len(),
{
    if s.len() > 0 {
        lemma_seq_sum_bounds(s.drop_last());
    }
}

/// `push` extends the set of elements a sequence contains by exactly the
/// pushed value.
pub proof fn lemma_push_contains<A>(s: Seq<A>, v: A, x: A)
    ensures
        s.push(v).contains(x) <==> (s.contains(x) || x == v),
{
    if s.contains(x) {
        let i = choose|i: int| 0 <= i < s.len() && s[i] == x;
        assert(s.push(v)[i] == x);
    }
    if x == v {
        assert(s.push(v)[s.len() as int] == x);
    }
    if s.push(v).contains(x) && x != v {
        let i = choose|i: int| 0 <= i < s.push(v).len() && s.push(v)[i] == x;
        assert(s[i] == x);
    }
}

/// Mathematical sum of a damage list.
pub open spec fn seq_sum(s: Seq<i32>) -> int
    decreases s.len(),
{
    if s.len() == 0 {
        0
    } else {
        seq_sum(s.drop_last()) + s.last()
    }
}

} // verus!
