//! The run-state machine that sequences input, world simulation and menus.

use vstd::prelude::*;
use crate::damage_system::{
    damage_rel, delete_dead_rel, delete_the_dead, lemma_delete_noop, DamageSystem,
};
use crate::inventory_system::{
    drink_rel, drop_rel, lemma_drink_deletes_potions, pickup_rel, ItemCollectionSystem,
    ItemDropSystem, PotionUseSystem,
};
use crate::map_indexing_system::{indexer_rel, MapIndexingSystem};
use crate::melee_combat_system::{lemma_melee_adds_bounds, melee_rel, MeleeCombatSystem};
use crate::monster_ai_system::{ai_rel, MonsterAI};
use crate::player::player_input;
use crate::visibility_system::{vis_rel, VisibilitySystem};
use crate::world::{same_world, World};

verus! {

/// The orchestrator's current phase.
#[derive(Clone, Copy, PartialEq, Eq, Structural, Debug)]
pub enum RunState {
    AwaitingInput,
    PreRun,
    PlayerTurn,
    MonsterTurn,
    ShowInventory,
    ShowDropItems,
}

/// One actionable command produced by the input mapper, or a request to open
/// a menu.  The absence of a command is a no-op tick.
#[derive(Clone, Copy, PartialEq, Eq, Structural, Debug)]
pub enum Command {
    Move { dx: i32, dy: i32 },
    OpenInventory,
    OpenDropMenu,
}

/// What the menu collaborator reports while a menu state is active.
#[derive(Clone, Copy, PartialEq, Eq, Structural, Debug)]
pub enum MenuResult {
    Cancel,
    NoResponse,
    Selected { item: usize },
}

/// The game state: the world store owned by the turn orchestrator.
pub struct State {
    pub ecs: crate::world::World,
}

/// `w` with its run-state replaced.
pub open spec fn with_run_state(w: World, rs: RunState) -> World {
    World { run_state: rs, ..w }
}

/// No intent of any kind is pending.
pub open spec fn intents_clear(w: World) -> bool {
    forall|e: int| 0 <= e < w.n() ==> {
        &&& (#[trigger] w.wants_melee@[e]) is None
        &&& w.wants_pickup@[e] is None
        &&& w.wants_drop@[e] is None
        &&& w.wants_drink@[e] is None
    }
}

/// One full simulation pass: visibility, monster decisions, map indexing,
/// melee resolution, damage application, pickup, drop, drink, and the
/// deferred-deletion maintenance step, in that fixed order.
pub open spec fn pipeline_rel(w0: World, w9: World) -> bool {
    exists|w1: World, w2: World, w3: World, w4: World, w5: World, w6: World, w7: World, w8: World|
        {
            &&& #[trigger] vis_rel(w0, w1)
            &&& #[trigger] ai_rel(w1, w2)
            &&& #[trigger] indexer_rel(w2, w3)
            &&& #[trigger] melee_rel(w3, w4)
            &&& #[trigger] damage_rel(w4, w5)
            &&& #[trigger] pickup_rel(w5, w6)
            &&& #[trigger] drop_rel(w6, w7)
            &&& #[trigger] drink_rel(w7, w8)
            &&& World::maintain_rel(w8, w9)
        }
}

impl State {
    /// Runs the fixed system pipeline once, ending at the maintenance
    /// boundary; every intent store is empty afterwards.
    pub fn run_systems(&mut self)
        requires
            old(self).ecs.wf(),
            old(self).ecs.intents_valid(),
            old(self).ecs.suffer_clear(),
            old(self).ecs.no_pending_deletes(),
        ensures
            final(self).ecs.wf(),
            pipeline_rel(old(self).ecs, final(self).ecs),
            intents_clear(final(self).ecs),
            final(self).ecs.intents_valid(),
            final(self).ecs.suffer_clear(),
            final(self).ecs.no_pending_deletes(),
            final(self).ecs.run_state == old(self).ecs.run_state,
    {
        let ghost w0 = self.ecs;
        VisibilitySystem::run(&mut self.ecs);
        let ghost w1 = self.ecs;
        proof {
            assert(self.ecs.intents_valid());
        }
        MonsterAI::run(&mut self.ecs);
        let ghost w2 = self.ecs;
        MapIndexingSystem::run(&mut self.ecs);
        let ghost w3 = self.ecs;
        proof {
            assert(self.ecs.intents_valid());
            assert(w3.suffer_clear());
        }
        MeleeCombatSystem::run(&mut self.ecs);
        let ghost w4 = self.ecs;
        proof {
            assert forall|e: int|
                0 <= e < w4.n() && (#[trigger] w4.combat_stats@[e]).is_some()
                    && w4.suffer_damage@[e]@.len() > 0 implies w4.combat_stats@[e].unwrap().hp
                >= 1 && w4.suffer_sum(e) <= 0x3FFF_FFFF by {
                lemma_melee_adds_bounds(w3, e, w3.n());
                assert(w4.suffer_damage@[e]@ == w3.suffer_damage@[e]@ + crate::melee_combat_system::melee_adds(
                    w3,
                    e,
                    w3.n(),
                ));
                assert(w3.suffer_damage@[e]@.len() == 0);
                assert(w4.suffer_damage@[e]@ =~= crate::melee_combat_system::melee_adds(
                    w3,
                    e,
                    w3.n(),
                ));
            }
        }
        DamageSystem::run(&mut self.ecs);
        let ghost w5 = self.ecs;
        proof {
            assert forall|c: int|
                0 <= c < w5.n() && (#[trigger] w5.wants_pickup@[c]).is_some() implies {
                &&& w5.items@[w5.wants_pickup@[c].unwrap() as int]
                &&& !w5.players@[w5.wants_pickup@[c].unwrap() as int]
            } by {
                assert(w0.wants_pickup@[c].is_some());
            }
            assert forall|d: int|
                0 <= d < w5.n() && (#[trigger] w5.wants_drop@[d]).is_some() implies {
                &&& w5.positions@[d].is_some()
                &&& !w5.items@[d]
                &&& w5.in_backpack@[w5.wants_drop@[d].unwrap() as int].is_some()
                &&& w5.names@[w5.wants_drop@[d].unwrap() as int].is_some()
            } by {
                assert(w0.wants_drop@[d].is_some());
                assert(w5.positions@[d] == crate::monster_ai_system::ai_pos(w1, d));
            }
            assert(self.ecs.intents_valid());
        }
        ItemCollectionSystem::run(&mut self.ecs);
        let ghost w6 = self.ecs;
        proof {
            assert forall|d: int|
                0 <= d < w6.n() && (#[trigger] w6.wants_drop@[d]).is_some() implies {
                &&& w6.positions@[d].is_some()
                &&& !w6.items@[d]
                &&& w6.in_backpack@[w6.wants_drop@[d].unwrap() as int].is_some()
                &&& w6.names@[w6.wants_drop@[d].unwrap() as int].is_some()
            } by {
                assert(w5.wants_drop@[d].is_some());
                crate::inventory_system::lemma_last_picker_not_item(w5, d, w5.n());
                let item = w6.wants_drop@[d].unwrap() as int;
                assert(0 <= item < w5.n());
                let probe_d = w6.positions@[d];
                let probe_item = w6.positions@[item];
                let probe_bp = w6.in_backpack@[item];
                assert(crate::inventory_system::last_picker(w5, d, w5.n()) is None);
            }
            assert(self.ecs.intents_valid());
        }
        ItemDropSystem::run(&mut self.ecs);
        let ghost w7 = self.ecs;
        PotionUseSystem::run(&mut self.ecs);
        let ghost w8 = self.ecs;
        proof {
            lemma_drink_deletes_potions(w7, w7.n());
            assert forall|i: int| 0 <= i < w8.to_delete@.len() implies #[trigger] w8.to_delete@[i]
                != w8.player_entity by {
                assert(w7.to_delete@.len() == 0);
                assert(w8.to_delete@ =~= crate::inventory_system::drink_deletes(w7, w7.n()));
                assert(w7.potions@[w8.to_delete@[i] as int].is_some());
                assert(w7.potions@[w7.player_entity as int].is_none());
            }
        }
        self.ecs.maintain();
        proof {
            assert(vis_rel(w0, w1));
            assert(ai_rel(w1, w2));
            assert(indexer_rel(w2, w3));
            assert(melee_rel(w3, w4));
            assert(damage_rel(w4, w5));
            assert(pickup_rel(w5, w6));
            assert(drop_rel(w6, w7));
            assert(drink_rel(w7, w8));
            assert(World::maintain_rel(w8, self.ecs));
            assert(pipeline_rel(w0, self.ecs));
            assert forall|e: int| 0 <= e < self.ecs.n() implies (
            #[trigger] self.ecs.wants_melee@[e]) is None && self.ecs.wants_pickup@[e] is None
                && self.ecs.wants_drop@[e] is None && self.ecs.wants_drink@[e] is None
                && self.ecs.suffer_damage@[e]@.len() == 0 by {
                assert(w4.wants_melee@[e] is None);
                assert(w5.suffer_damage@[e]@ == Seq::<i32>::empty());
                assert(w6.wants_pickup@[e] is None);
                assert(w7.wants_drop@[e] is None);
                assert(w8.wants_drink@[e] is None);
                if !w8.to_delete@.contains(e as usize) {
                    assert(self.ecs.wants_melee@[e] == w8.wants_melee@[e]);
                }
            }
            assert forall|e: int| 0 <= e < self.ecs.n() implies (
            #[trigger] self.ecs.wants_pickup@[e]) is None by {
                assert(self.ecs.wants_melee@[e] is None);
            }
            assert forall|e: int| 0 <= e < self.ecs.n() implies (
            #[trigger] self.ecs.wants_drop@[e]) is None by {
                assert(self.ecs.wants_melee@[e] is None);
            }
            assert forall|e: int| 0 <= e < self.ecs.n() implies (
            #[trigger] self.ecs.wants_drink@[e]) is None by {
                assert(self.ecs.wants_melee@[e] is None);
            }
            assert forall|e: int| 0 <= e < self.ecs.n() implies (
            #[trigger] self.ecs.suffer_damage@[e])@.len() == 0 by {
                assert(self.ecs.wants_melee@[e] is None);
            }
        }
    }
}


/// What the menu collaborator must hand back while a menu is open: a
/// selected entity is a named non-player item in the player's backpack.
pub open spec fn menu_selection_ok(w: World, menu: MenuResult) -> bool {
    match menu {
        MenuResult::Selected { item } => {
            &&& (item as int) < w.n()
            &&& w.in_backpack@[item as int] == Some(w.player_entity)
            &&& w.names@[item as int].is_some()
            &&& w.items@[item as int]
            &&& !w.players@[item as int]
        },
        _ => true,
    }
}

/// One simulation step of the tick: the full pipeline, the run-state
/// advanced to `next`, then the mortality sweep.
pub open spec fn sim_step(w0: World, w1: World, next: RunState) -> bool {
    exists|wm: World|
        #[trigger] pipeline_rel(w0, wm) && delete_dead_rel(with_run_state(wm, next), w1)
}

/// A menu selection enqueues exactly one intent against the player and
/// hands the turn to the simulation; nothing else moves.
pub open spec fn menu_intent_rel(w0: World, w1: World, drink: bool, item: usize) -> bool {
    &&& (if drink {
        w1.wants_drink@ == w0.wants_drink@.update(w0.player_entity as int, Some(item))
            && w1.wants_drop@ == w0.wants_drop@
    } else {
        w1.wants_drop@ == w0.wants_drop@.update(w0.player_entity as int, Some(item))
            && w1.wants_drink@ == w0.wants_drink@
    })
    &&& w1.run_state == RunState::PlayerTurn
    &&& w1.alive@ == w0.alive@
    &&& w1.positions@ == w0.positions@
    &&& w1.renderables@ == w0.renderables@
    &&& w1.players@ == w0.players@
    &&& w1.monsters@ == w0.monsters@
    &&& w1.names@ == w0.names@
    &&& w1.viewsheds@ == w0.viewsheds@
    &&& w1.blocks_tile@ == w0.blocks_tile@
    &&& w1.combat_stats@ == w0.combat_stats@
    &&& w1.items@ == w0.items@
    &&& w1.potions@ == w0.potions@
    &&& w1.in_backpack@ == w0.in_backpack@
    &&& w1.wants_melee@ == w0.wants_melee@
    &&& w1.wants_pickup@ == w0.wants_pickup@
    &&& w1.suffer_damage@ == w0.suffer_damage@
    &&& w1.to_delete@ == w0.to_delete@
    &&& w1.map.tiles@ == w0.map.tiles@
    &&& w1.map.rooms@ == w0.map.rooms@
    &&& w1.map.blocked@ == w0.map.blocked@
    &&& w1.map.tile_content@ == w0.map.tile_content@
    &&& w1.map.revealed_tiles@ == w0.map.revealed_tiles@
    &&& w1.map.visible_tiles@ == w0.map.visible_tiles@
    &&& w1.player_entity == w0.player_entity
    &&& w1.player_pos == w0.player_pos
    &&& w1.log.entries@ == w0.log.entries@
}

impl State {
    /// Advances the world by one tick: runs the phase that the current
    /// run-state calls for, writes the next run-state back, and ends with
    /// the unconditional mortality sweep, so the dead of a pass are never
    /// visible at the start of the next tick.  A no-op tick (awaiting
    /// input, no command) leaves the whole world unchanged.
    pub fn tick(&mut self, input: Option<Command>, menu: MenuResult)
        requires
            old(self).ecs.wf(),
            old(self).ecs.intents_valid(),
            old(self).ecs.suffer_clear(),
            old(self).ecs.no_pending_deletes(),
            old(self).ecs.no_undead(),
            (match input {
                Some(Command::Move { dx, dy }) => -1 <= dx <= 1 && -1 <= dy <= 1,
                _ => true,
            }),
            (old(self).ecs.run_state == RunState::ShowInventory || old(self).ecs.run_state
                == RunState::ShowDropItems) ==> menu_selection_ok(old(self).ecs, menu),
        ensures
            final(self).ecs.wf(),
            final(self).ecs.intents_valid(),
            final(self).ecs.suffer_clear(),
            final(self).ecs.no_pending_deletes(),
            final(self).ecs.no_undead(),
            (match old(self).ecs.run_state {
                RunState::PreRun => final(self).ecs.run_state == RunState::AwaitingInput
                    && sim_step(old(self).ecs, final(self).ecs, RunState::AwaitingInput),
                RunState::PlayerTurn => final(self).ecs.run_state == RunState::MonsterTurn
                    && sim_step(old(self).ecs, final(self).ecs, RunState::MonsterTurn),
                RunState::MonsterTurn => final(self).ecs.run_state == RunState::AwaitingInput
                    && sim_step(old(self).ecs, final(self).ecs, RunState::AwaitingInput),
                RunState::AwaitingInput => (match input {
                    None => same_world(old(self).ecs, final(self).ecs) && final(self).ecs.run_state
                        == RunState::AwaitingInput,
                    Some(Command::Move { dx, dy }) => final(self).ecs.run_state
                        == RunState::PlayerTurn && exists|w1: World|
                        #[trigger] crate::player::try_move_rel(
                            old(self).ecs,
                            w1,
                            dx as int,
                            dy as int,
                        ) && same_world(with_run_state(w1, RunState::PlayerTurn), final(self).ecs),
                    Some(Command::OpenInventory) => same_world(
                        with_run_state(old(self).ecs, RunState::ShowInventory),
                        final(self).ecs,
                    ),
                    Some(Command::OpenDropMenu) => same_world(
                        with_run_state(old(self).ecs, RunState::ShowDropItems),
                        final(self).ecs,
                    ),
                }),
                RunState::ShowInventory => (match menu {
                    MenuResult::Cancel => same_world(
                        with_run_state(old(self).ecs, RunState::AwaitingInput),
                        final(self).ecs,
                    ),
                    MenuResult::NoResponse => same_world(old(self).ecs, final(self).ecs),
                    MenuResult::Selected { item } => menu_intent_rel(
                        old(self).ecs,
                        final(self).ecs,
                        true,
                        item,
                    ),
                }),
                RunState::ShowDropItems => (match menu {
                    MenuResult::Cancel => same_world(
                        with_run_state(old(self).ecs, RunState::AwaitingInput),
                        final(self).ecs,
                    ),
                    MenuResult::NoResponse => same_world(old(self).ecs, final(self).ecs),
                    MenuResult::Selected { item } => menu_intent_rel(
                        old(self).ecs,
                        final(self).ecs,
                        false,
                        item,
                    ),
                }),
            }),
    {
        let ghost w0 = self.ecs;
        let state0 = self.ecs.run_state;
        let mut new_run_state = state0;
        match state0 {
            RunState::PreRun => {
                self.run_systems();
                new_run_state = RunState::AwaitingInput;
            },
            RunState::AwaitingInput => {
                new_run_state = player_input(self, input);
            },
            RunState::PlayerTurn => {
                self.run_systems();
                new_run_state = RunState::MonsterTurn;
            },
            RunState::MonsterTurn => {
                self.run_systems();
                new_run_state = RunState::AwaitingInput;
            },
            RunState::ShowInventory => {
                match menu {
                    MenuResult::Cancel => {
                        new_run_state = RunState::AwaitingInput;
                    },
                    MenuResult::NoResponse => {},
                    MenuResult::Selected { item } => {
                        let player = self.ecs.player_entity;
                        self.ecs.wants_drink.set(player, Some(item));
                        new_run_state = RunState::PlayerTurn;
                    },
                }
            },
            RunState::ShowDropItems => {
                match menu {
                    MenuResult::Cancel => {
                        new_run_state = RunState::AwaitingInput;
                    },
                    MenuResult::NoResponse => {},
                    MenuResult::Selected { item } => {
                        let player = self.ecs.player_entity;
                        self.ecs.wants_drop.set(player, Some(item));
                        new_run_state = RunState::PlayerTurn;
                    },
                }
            },
        }
        let ghost w_mid = self.ecs;
        self.ecs.run_state = new_run_state;
        let ghost w_pre = self.ecs;
        proof {
            assert(w_pre == with_run_state(w_mid, new_run_state));
        }
        delete_the_dead(&mut self.ecs);
        proof {
            match w0.run_state {
                RunState::PreRun | RunState::PlayerTurn | RunState::MonsterTurn => {
                    assert(pipeline_rel(w0, w_mid));
                    assert(sim_step(w0, self.ecs, new_run_state));
                    assert forall|e: int| 0 <= e < self.ecs.n() implies (
                    #[trigger] self.ecs.wants_melee@[e]) is None
                        && self.ecs.wants_pickup@[e] is None && self.ecs.wants_drop@[e] is None
                        && self.ecs.wants_drink@[e] is None && self.ecs.suffer_damage@[e]@.len()
                        == 0 by {
                        assert(w_pre.wants_melee@[e] is None);
                        assert(w_pre.wants_pickup@[e] is None);
                        assert(w_pre.wants_drop@[e] is None);
                        assert(w_pre.wants_drink@[e] is None);
                        assert(w_pre.suffer_damage@[e]@.len() == 0);
                        let probe = self.ecs.alive@[e];
                        if !crate::damage_system::doomed(w_pre, e) {
                            assert(self.ecs.wants_melee@[e] == w_pre.wants_melee@[e]);
                        }
                    }
                    assert forall|e: int| 0 <= e < self.ecs.n() implies (
                    #[trigger] self.ecs.wants_pickup@[e]) is None by {
                        assert(self.ecs.wants_melee@[e] is None);
                    }
                    assert forall|e: int| 0 <= e < self.ecs.n() implies (
                    #[trigger] self.ecs.wants_drop@[e]) is None by {
                        assert(self.ecs.wants_melee@[e] is None);
                    }
                    assert forall|e: int| 0 <= e < self.ecs.n() implies (
                    #[trigger] self.ecs.wants_drink@[e]) is None by {
                        assert(self.ecs.wants_melee@[e] is None);
                    }
                    assert forall|e: int| 0 <= e < self.ecs.n() implies (
                    #[trigger] self.ecs.suffer_damage@[e])@.len() == 0 by {
                        assert(self.ecs.wants_melee@[e] is None);
                    }
                    assert(self.ecs.no_pending_deletes());
                },
                _ => {
                    assert(w_pre.wf());
                    assert forall|e: int|
                        0 <= e < w_pre.n() && (#[trigger] w_pre.combat_stats@[e]) is Some
                            && w_pre.combat_stats@[e].unwrap().hp < 1 implies e
                        == w_pre.player_entity as int by {
                        assert(w0.combat_stats@[e] == w_pre.combat_stats@[e]);
                    }
                    assert(w_pre.no_undead());
                    lemma_delete_noop(w_pre, self.ecs);
                    assert forall|a: int|
                        0 <= a < self.ecs.n() && (#[trigger] self.ecs.wants_melee@[a]).is_some()
                            implies self.ecs.combat_stats@[self.ecs.wants_melee@[a].unwrap() as int].is_some() by {
                        assert(w_pre.wants_melee@[a].is_some());
                        assert(w_pre.combat_stats@[w_pre.wants_melee@[a].unwrap() as int].is_some());
                    }
                    assert forall|d: int|
                        0 <= d < self.ecs.n() && (#[trigger] self.ecs.wants_drop@[d]).is_some()
                            implies {
                        &&& self.ecs.positions@[d].is_some()
                        &&& !self.ecs.items@[d]
                        &&& self.ecs.in_backpack@[self.ecs.wants_drop@[d].unwrap() as int].is_some()
                        &&& self.ecs.names@[self.ecs.wants_drop@[d].unwrap() as int].is_some()
                    } by {
                        assert(w_pre.wants_drop@[d].is_some());
                    }
                    assert forall|c: int|
                        0 <= c < self.ecs.n() && (#[trigger] self.ecs.wants_pickup@[c]).is_some()
                            implies {
                        &&& self.ecs.items@[self.ecs.wants_pickup@[c].unwrap() as int]
                        &&& !self.ecs.players@[self.ecs.wants_pickup@[c].unwrap() as int]
                    } by {
                        assert(w_pre.wants_pickup@[c].is_some());
                    }
                    assert forall|e: int| 0 <= e < self.ecs.n() implies (
                    #[trigger] self.ecs.suffer_damage@[e])@.len() == 0 by {
                        assert(w_pre.suffer_damage@[e] == w0.suffer_damage@[e]);
                    }
                },
            }
        }
    }
}

} // verus!
