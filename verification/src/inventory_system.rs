//! The inventory resolver: three independent intent processors for picking
//! an item up, dropping one, and drinking a potion.  Each clears its own
//! intent store unconditionally after processing.

use vstd::prelude::*;
use vstd::math::min;
use crate::components::CombatStats;
use crate::game_log::LogEntry;
use crate::world::World;

verus! {

/// Collector `c` holds a pickup intent this pass.
pub open spec fn pickup_acts(w: World, c: int) -> bool {
    0 <= c < w.n() && w.wants_pickup@[c].is_some()
}

/// The item collector `c` wants.
pub open spec fn pickup_item(w: World, c: int) -> int {
    w.wants_pickup@[c].unwrap() as int
}

/// The latest collector below `k` that picks item `i` up; when several
/// collect the same item in one pass, the last write wins.
pub open spec fn last_picker(w: World, i: int, k: int) -> Option<int>
    decreases k,
{
    if k <= 0 {
        None
    } else if pickup_acts(w, k - 1) && pickup_item(w, k - 1) == i {
        Some(k - 1)
    } else {
        last_picker(w, i, k - 1)
    }
}

/// The pickup messages of the pass, in collector order: only the player's
/// pickups of named items are logged; an unnamed item is still picked up,
/// silently.
pub open spec fn pickup_log(w: World, k: int) -> Seq<LogEntry>
    decreases k,
{
    if k <= 0 {
        Seq::empty()
    } else {
        let prev = pickup_log(w, k - 1);
        if pickup_acts(w, k - 1) && k - 1 == w.player_entity as int && w.names@[pickup_item(
            w,
            k - 1,
        )].is_some() {
            prev.push(
                LogEntry::PickedUp { by: (k - 1) as usize, item: pickup_item(w, k - 1) as usize },
            )
        } else {
            prev
        }
    }
}

/// The exact effect of one pickup pass: every wanted item loses its
/// position and lands in its collector's backpack.
pub open spec fn pickup_rel(w0: World, w1: World) -> bool {
    &&& forall|i: int| 0 <= i < w0.n() ==> (match last_picker(w0, i, w0.n()) {
        Some(c) => (#[trigger] w1.positions@[i]) is None && w1.in_backpack@[i] == Some(c as usize),
        None => w1.positions@[i] == w0.positions@[i] && w1.in_backpack@[i] == w0.in_backpack@[i],
    })
    &&& forall|c: int| 0 <= c < w0.n() ==> (#[trigger] w1.wants_pickup@[c]) is None
    &&& w1.log.entries@ == w0.log.entries@ + pickup_log(w0, w0.n())
    &&& w1.alive == w0.alive
    &&& w1.renderables == w0.renderables
    &&& w1.players == w0.players
    &&& w1.monsters == w0.monsters
    &&& w1.names == w0.names
    &&& w1.viewsheds == w0.viewsheds
    &&& w1.blocks_tile == w0.blocks_tile
    &&& w1.combat_stats == w0.combat_stats
    &&& w1.items == w0.items
    &&& w1.potions == w0.potions
    &&& w1.wants_melee == w0.wants_melee
    &&& w1.wants_drop == w0.wants_drop
    &&& w1.wants_drink == w0.wants_drink
    &&& w1.suffer_damage == w0.suffer_damage
    &&& w1.to_delete == w0.to_delete
    &&& w1.map == w0.map
    &&& w1.player_entity == w0.player_entity
    &&& w1.player_pos == w0.player_pos
    &&& w1.run_state == w0.run_state
}

pub struct ItemCollectionSystem {}

impl ItemCollectionSystem {
    /// Processes every pickup intent: removes the item's position, attaches
    /// the backpack link, and logs the player's named pickups.
    pub fn run(ecs: &mut World)
        requires
            old(ecs).wf(),
            old(ecs).intents_valid(),
        ensures
            final(ecs).wf(),
            pickup_rel(*old(ecs), *final(ecs)),
    {
        let n = ecs.alive.len();
        let player_entity = ecs.player_entity;
        let mut c: usize = 0;
        while c < n
            invariant
                old(ecs).wf(),
                old(ecs).intents_valid(),
                ecs.wf(),
                n as int == old(ecs).n(),
                c <= n,
                player_entity == old(ecs).player_entity,
                forall|i: int| 0 <= i < old(ecs).n() ==> (match last_picker(*old(ecs), i, c as int) {
                    Some(p) => (#[trigger] ecs.positions@[i]) is None && ecs.in_backpack@[i]
                        == Some(p as usize),
                    None => ecs.positions@[i] == old(ecs).positions@[i] && ecs.in_backpack@[i]
                        == old(ecs).in_backpack@[i],
                }),
                ecs.log.entries@ == old(ecs).log.entries@ + pickup_log(*old(ecs), c as int),
                ecs.alive == old(ecs).alive,
                ecs.renderables == old(ecs).renderables,
                ecs.players == old(ecs).players,
                ecs.monsters == old(ecs).monsters,
                ecs.names == old(ecs).names,
                ecs.viewsheds == old(ecs).viewsheds,
                ecs.blocks_tile == old(ecs).blocks_tile,
                ecs.combat_stats == old(ecs).combat_stats,
                ecs.items == old(ecs).items,
                ecs.potions == old(ecs).potions,
                ecs.wants_melee == old(ecs).wants_melee,
                ecs.wants_pickup == old(ecs).wants_pickup,
                ecs.wants_drop == old(ecs).wants_drop,
                ecs.wants_drink == old(ecs).wants_drink,
                ecs.suffer_damage == old(ecs).suffer_damage,
                ecs.to_delete == old(ecs).to_delete,
                ecs.map == old(ecs).map,
                ecs.player_entity == old(ecs).player_entity,
                ecs.player_pos == old(ecs).player_pos,
                ecs.run_state == old(ecs).run_state,
            decreases n - c,
        {
            let intent = ecs.wants_pickup[c];
            match intent {
                Some(item) => {
                    assert(pickup_acts(*old(ecs), c as int));
                    ecs.positions.set(item, None);
                    ecs.in_backpack.set(item, Some(c));
                    if c == player_entity {
                        let has_name = match &ecs.names[item] {
                            Some(_) => true,
                            None => false,
                        };
                        if has_name {
                            ecs.log.push(LogEntry::PickedUp { by: c, item });
                        }
                    }
                },
                None => {
                    assert(!pickup_acts(*old(ecs), c as int));
                },
            }
            c = c + 1;
        }
        let mut k: usize = 0;
        while k < n
            invariant
                old(ecs).wf(),
                ecs.wf(),
                n as int == old(ecs).n(),
                k <= n,
                forall|i: int| 0 <= i < old(ecs).n() ==> (match last_picker(
                    *old(ecs),
                    i,
                    old(ecs).n(),
                ) {
                    Some(p) => (#[trigger] ecs.positions@[i]) is None && ecs.in_backpack@[i]
                        == Some(p as usize),
                    None => ecs.positions@[i] == old(ecs).positions@[i] && ecs.in_backpack@[i]
                        == old(ecs).in_backpack@[i],
                }),
                ecs.log.entries@ == old(ecs).log.entries@ + pickup_log(*old(ecs), old(ecs).n()),
                forall|j: int| 0 <= j < k ==> (#[trigger] ecs.wants_pickup@[j]) is None,
                forall|j: int| k <= j < old(ecs).n()
                    ==> #[trigger] ecs.wants_pickup@[j] == old(ecs).wants_pickup@[j],
                ecs.alive == old(ecs).alive,
                ecs.renderables == old(ecs).renderables,
                ecs.players == old(ecs).players,
                ecs.monsters == old(ecs).monsters,
                ecs.names == old(ecs).names,
                ecs.viewsheds == old(ecs).viewsheds,
                ecs.blocks_tile == old(ecs).blocks_tile,
                ecs.combat_stats == old(ecs).combat_stats,
                ecs.items == old(ecs).items,
                ecs.potions == old(ecs).potions,
                ecs.wants_melee == old(ecs).wants_melee,
                ecs.wants_drop == old(ecs).wants_drop,
                ecs.wants_drink == old(ecs).wants_drink,
                ecs.suffer_damage == old(ecs).suffer_damage,
                ecs.to_delete == old(ecs).to_delete,
                ecs.map == old(ecs).map,
                ecs.player_entity == old(ecs).player_entity,
                ecs.player_pos == old(ecs).player_pos,
                ecs.run_state == old(ecs).run_state,
            decreases n - k,
        {
            ecs.wants_pickup.set(k, None);
            k = k + 1;
        }
    }
}

/// Dropper `d` holds a drop intent this pass.
pub open spec fn drop_acts(w: World, d: int) -> bool {
    0 <= d < w.n() && w.wants_drop@[d].is_some()
}

/// The item dropper `d` wants to drop.
pub open spec fn drop_item(w: World, d: int) -> int {
    w.wants_drop@[d].unwrap() as int
}

/// The latest dropper below `k` that drops item `i`.
pub open spec fn last_dropper(w: World, i: int, k: int) -> Option<int>
    decreases k,
{
    if k <= 0 {
        None
    } else if drop_acts(w, k - 1) && drop_item(w, k - 1) == i {
        Some(k - 1)
    } else {
        last_dropper(w, i, k - 1)
    }
}

/// A successful search result really is an acting dropper of that item.
pub proof fn lemma_last_dropper_some(w: World, i: int, k: int)
    requires
        last_dropper(w, i, k) is Some,
    ensures
        drop_acts(w, last_dropper(w, i, k).unwrap()),
        drop_item(w, last_dropper(w, i, k).unwrap()) == i,
        0 <= last_dropper(w, i, k).unwrap() < k,
    decreases k,
{
    if k > 0 {
        if !(drop_acts(w, k - 1) && drop_item(w, k - 1) == i) {
            lemma_last_dropper_some(w, i, k - 1);
        }
    }
}

/// The drop messages of the pass, in dropper order: only the player's
/// drops are logged.
pub open spec fn drop_log(w: World, k: int) -> Seq<LogEntry>
    decreases k,
{
    if k <= 0 {
        Seq::empty()
    } else {
        let prev = drop_log(w, k - 1);
        if drop_acts(w, k - 1) && k - 1 == w.player_entity as int {
            prev.push(
                LogEntry::Dropped { by: (k - 1) as usize, item: drop_item(w, k - 1) as usize },
            )
        } else {
            prev
        }
    }
}

/// The exact effect of one drop pass: every dropped item leaves its
/// dropper's backpack and lands at the dropper's own tile.
pub open spec fn drop_rel(w0: World, w1: World) -> bool {
    &&& forall|i: int| 0 <= i < w0.n() ==> (match last_dropper(w0, i, w0.n()) {
        Some(d) => (#[trigger] w1.positions@[i]) == w0.positions@[d] && w1.in_backpack@[i] is None,
        None => w1.positions@[i] == w0.positions@[i] && w1.in_backpack@[i] == w0.in_backpack@[i],
    })
    &&& forall|d: int| 0 <= d < w0.n() ==> (#[trigger] w1.wants_drop@[d]) is None
    &&& w1.log.entries@ == w0.log.entries@ + drop_log(w0, w0.n())
    &&& w1.alive == w0.alive
    &&& w1.renderables == w0.renderables
    &&& w1.players == w0.players
    &&& w1.monsters == w0.monsters
    &&& w1.names == w0.names
    &&& w1.viewsheds == w0.viewsheds
    &&& w1.blocks_tile == w0.blocks_tile
    &&& w1.combat_stats == w0.combat_stats
    &&& w1.items == w0.items
    &&& w1.potions == w0.potions
    &&& w1.wants_melee == w0.wants_melee
    &&& w1.wants_pickup == w0.wants_pickup
    &&& w1.wants_drink == w0.wants_drink
    &&& w1.suffer_damage == w0.suffer_damage
    &&& w1.to_delete == w0.to_delete
    &&& w1.map == w0.map
    &&& w1.player_entity == w0.player_entity
    &&& w1.player_pos == w0.player_pos
    &&& w1.run_state == w0.run_state
}

pub struct ItemDropSystem {}

impl ItemDropSystem {
    /// Processes every drop intent: places the item at the dropper's
    /// current tile, detaches the backpack link, and logs the player's
    /// drops.
    pub fn run(ecs: &mut World)
        requires
            old(ecs).wf(),
            old(ecs).intents_valid(),
        ensures
            final(ecs).wf(),
            drop_rel(*old(ecs), *final(ecs)),
    {
        let n = ecs.alive.len();
        let player_entity = ecs.player_entity;
        let mut d: usize = 0;
        while d < n
            invariant
                old(ecs).wf(),
                old(ecs).intents_valid(),
                ecs.wf(),
                n as int == old(ecs).n(),
                d <= n,
                player_entity == old(ecs).player_entity,
                forall|i: int| 0 <= i < old(ecs).n() ==> (match last_dropper(
                    *old(ecs),
                    i,
                    d as int,
                ) {
                    Some(p) => (#[trigger] ecs.positions@[i]) == old(ecs).positions@[p]
                        && ecs.in_backpack@[i] is None,
                    None => ecs.positions@[i] == old(ecs).positions@[i] && ecs.in_backpack@[i]
                        == old(ecs).in_backpack@[i],
                }),
                ecs.log.entries@ == old(ecs).log.entries@ + drop_log(*old(ecs), d as int),
                ecs.alive == old(ecs).alive,
                ecs.renderables == old(ecs).renderables,
                ecs.players == old(ecs).players,
                ecs.monsters == old(ecs).monsters,
                ecs.names == old(ecs).names,
                ecs.viewsheds == old(ecs).viewsheds,
                ecs.blocks_tile == old(ecs).blocks_tile,
                ecs.combat_stats == old(ecs).combat_stats,
                ecs.items == old(ecs).items,
                ecs.potions == old(ecs).potions,
                ecs.wants_melee == old(ecs).wants_melee,
                ecs.wants_pickup == old(ecs).wants_pickup,
                ecs.wants_drop == old(ecs).wants_drop,
                ecs.wants_drink == old(ecs).wants_drink,
                ecs.suffer_damage == old(ecs).suffer_damage,
                ecs.to_delete == old(ecs).to_delete,
                ecs.map == old(ecs).map,
                ecs.player_entity == old(ecs).player_entity,
                ecs.player_pos == old(ecs).player_pos,
                ecs.run_state == old(ecs).run_state,
            decreases n - d,
        {
            let intent = ecs.wants_drop[d];
            match intent {
                Some(item) => {
                    assert(drop_acts(*old(ecs), d as int));
                    assert(old(ecs).positions@[d as int].is_some());
                    assert(old(ecs).in_backpack@[item as int].is_some());
                    proof {
                        assert(old(ecs).wants_drop@[d as int].is_some());
                        assert(old(ecs).positions@[d as int].is_some());
                        assert(old(ecs).in_backpack@[item as int].is_some());
                        if last_dropper(*old(ecs), d as int, d as int) is Some {
                            let p = last_dropper(*old(ecs), d as int, d as int).unwrap();
                            lemma_last_dropper_some(*old(ecs), d as int, d as int);
                            assert(old(ecs).wants_drop@[p].is_some());
                            assert(old(ecs).in_backpack@[d as int].is_some());
                            assert(false);
                        }
                        assert(ecs.positions@[d as int] == old(ecs).positions@[d as int]);
                        assert(item as int != d as int);
                    }
                    let dropper_pos = ecs.positions[d].unwrap();
                    ecs.in_backpack.set(item, None);
                    ecs.positions.set(item, Some(dropper_pos));
                    if d == player_entity {
                        ecs.log.push(LogEntry::Dropped { by: d, item });
                    }
                },
                None => {
                    assert(!drop_acts(*old(ecs), d as int));
                },
            }
            d = d + 1;
        }
        let mut k: usize = 0;
        while k < n
            invariant
                old(ecs).wf(),
                ecs.wf(),
                n as int == old(ecs).n(),
                k <= n,
                forall|i: int| 0 <= i < old(ecs).n() ==> (match last_dropper(
                    *old(ecs),
                    i,
                    old(ecs).n(),
                ) {
                    Some(p) => (#[trigger] ecs.positions@[i]) == old(ecs).positions@[p]
                        && ecs.in_backpack@[i] is None,
                    None => ecs.positions@[i] == old(ecs).positions@[i] && ecs.in_backpack@[i]
                        == old(ecs).in_backpack@[i],
                }),
                ecs.log.entries@ == old(ecs).log.entries@ + drop_log(*old(ecs), old(ecs).n()),
                forall|j: int| 0 <= j < k ==> (#[trigger] ecs.wants_drop@[j]) is None,
                forall|j: int| k <= j < old(ecs).n()
                    ==> #[trigger] ecs.wants_drop@[j] == old(ecs).wants_drop@[j],
                ecs.alive == old(ecs).alive,
                ecs.renderables == old(ecs).renderables,
                ecs.players == old(ecs).players,
                ecs.monsters == old(ecs).monsters,
                ecs.names == old(ecs).names,
                ecs.viewsheds == old(ecs).viewsheds,
                ecs.blocks_tile == old(ecs).blocks_tile,
                ecs.combat_stats == old(ecs).combat_stats,
                ecs.items == old(ecs).items,
                ecs.potions == old(ecs).potions,
                ecs.wants_melee == old(ecs).wants_melee,
                ecs.wants_pickup == old(ecs).wants_pickup,
                ecs.wants_drink == old(ecs).wants_drink,
                ecs.suffer_damage == old(ecs).suffer_damage,
                ecs.to_delete == old(ecs).to_delete,
                ecs.map == old(ecs).map,
                ecs.player_entity == old(ecs).player_entity,
                ecs.player_pos == old(ecs).player_pos,
                ecs.run_state == old(ecs).run_state,
            decreases n - k,
        {
            ecs.wants_drop.set(k, None);
            k = k + 1;
        }
    }
}

/// Drinker `d` holds a drink intent and has combat statistics.
pub open spec fn drink_acts(w: World, d: int) -> bool {
    0 <= d < w.n() && w.wants_drink@[d].is_some() && w.combat_stats@[d].is_some()
}

/// The potion drinker `d` refers to.
pub open spec fn drink_potion(w: World, d: int) -> int {
    w.wants_drink@[d].unwrap() as int
}

/// The intent does something: the referenced potion still exists.  A stale
/// reference is silently dropped.
pub open spec fn drink_effective(w: World, d: int) -> bool {
    drink_acts(w, d) && w.potions@[drink_potion(w, d)].is_some()
}

/// The statistics of drinker `d` after drinking: healed by the potion's
/// amount, clamped so hit points never exceed the maximum.
pub open spec fn drunk_stats(w: World, d: int) -> CombatStats {
    let s = w.combat_stats@[d].unwrap();
    let amount = w.potions@[drink_potion(w, d)].unwrap().amount;
    CombatStats {
        max_hp: s.max_hp,
        hp: min(s.max_hp as int, s.hp + amount) as i32,
        defense: s.defense,
        power: s.power,
    }
}

/// The potions scheduled for deletion by the first `k` drinkers, in order.
pub open spec fn drink_deletes(w: World, k: int) -> Seq<usize>
    decreases k,
{
    if k <= 0 {
        Seq::empty()
    } else {
        let prev = drink_deletes(w, k - 1);
        if drink_effective(w, k - 1) {
            prev.push(drink_potion(w, k - 1) as usize)
        } else {
            prev
        }
    }
}

/// The drink messages of the pass, in drinker order: only the player's
/// drinks are logged.
pub open spec fn drink_log(w: World, k: int) -> Seq<LogEntry>
    decreases k,
{
    if k <= 0 {
        Seq::empty()
    } else {
        let prev = drink_log(w, k - 1);
        if drink_effective(w, k - 1) && k - 1 == w.player_entity as int {
            prev.push(
                LogEntry::Drank {
                    who: (k - 1) as usize,
                    potion: drink_potion(w, k - 1) as usize,
                    amount: w.potions@[drink_potion(w, k - 1)].unwrap().amount,
                },
            )
        } else {
            prev
        }
    }
}

/// The exact effect of one drink pass: each effective drinker heals,
/// clamped at its maximum, and the potion is scheduled for deletion.
pub open spec fn drink_rel(w0: World, w1: World) -> bool {
    &&& forall|d: int| 0 <= d < w0.n() ==> #[trigger] w1.combat_stats@[d] == (if drink_effective(
        w0,
        d,
    ) {
        Some(drunk_stats(w0, d))
    } else {
        w0.combat_stats@[d]
    })
    &&& forall|d: int| 0 <= d < w0.n() ==> (#[trigger] w1.wants_drink@[d]) is None
    &&& w1.to_delete@ == w0.to_delete@ + drink_deletes(w0, w0.n())
    &&& w1.log.entries@ == w0.log.entries@ + drink_log(w0, w0.n())
    &&& w1.alive == w0.alive
    &&& w1.positions == w0.positions
    &&& w1.renderables == w0.renderables
    &&& w1.players == w0.players
    &&& w1.monsters == w0.monsters
    &&& w1.names == w0.names
    &&& w1.viewsheds == w0.viewsheds
    &&& w1.blocks_tile == w0.blocks_tile
    &&& w1.items == w0.items
    &&& w1.potions == w0.potions
    &&& w1.in_backpack == w0.in_backpack
    &&& w1.wants_melee == w0.wants_melee
    &&& w1.wants_pickup == w0.wants_pickup
    &&& w1.wants_drop == w0.wants_drop
    &&& w1.suffer_damage == w0.suffer_damage
    &&& w1.map == w0.map
    &&& w1.player_entity == w0.player_entity
    &&& w1.player_pos == w0.player_pos
    &&& w1.run_state == w0.run_state
}

pub struct PotionUseSystem {}

impl PotionUseSystem {
    /// Processes every drink intent: heals the drinker without exceeding
    /// its maximum hit points, schedules the potion for deletion, and logs
    /// the player's drinks.  A stale potion reference is a no-op.
    pub fn run(ecs: &mut World)
        requires
            old(ecs).wf(),
        ensures
            final(ecs).wf(),
            drink_rel(*old(ecs), *final(ecs)),
    {
        let n = ecs.alive.len();
        let player_entity = ecs.player_entity;
        let mut d: usize = 0;
        while d < n
            invariant
                old(ecs).wf(),
                ecs.wf(),
                n as int == old(ecs).n(),
                d <= n,
                player_entity == old(ecs).player_entity,
                forall|i: int| 0 <= i < old(ecs).n() ==> #[trigger] ecs.combat_stats@[i] == (
                if i < d && drink_effective(*old(ecs), i) {
                    Some(drunk_stats(*old(ecs), i))
                } else {
                    old(ecs).combat_stats@[i]
                }),
                ecs.to_delete@ == old(ecs).to_delete@ + drink_deletes(*old(ecs), d as int),
                ecs.log.entries@ == old(ecs).log.entries@ + drink_log(*old(ecs), d as int),
                ecs.alive == old(ecs).alive,
                ecs.positions == old(ecs).positions,
                ecs.renderables == old(ecs).renderables,
                ecs.players == old(ecs).players,
                ecs.monsters == old(ecs).monsters,
                ecs.names == old(ecs).names,
                ecs.viewsheds == old(ecs).viewsheds,
                ecs.blocks_tile == old(ecs).blocks_tile,
                ecs.items == old(ecs).items,
                ecs.potions == old(ecs).potions,
                ecs.in_backpack == old(ecs).in_backpack,
                ecs.wants_melee == old(ecs).wants_melee,
                ecs.wants_pickup == old(ecs).wants_pickup,
                ecs.wants_drop == old(ecs).wants_drop,
                ecs.wants_drink == old(ecs).wants_drink,
                ecs.suffer_damage == old(ecs).suffer_damage,
                ecs.map == old(ecs).map,
                ecs.player_entity == old(ecs).player_entity,
                ecs.player_pos == old(ecs).player_pos,
                ecs.run_state == old(ecs).run_state,
            decreases n - d,
        {
            let intent = ecs.wants_drink[d];
            let stats = ecs.combat_stats[d];
            match (intent, stats) {
                (Some(potion), Some(s)) => {
                    assert(drink_acts(*old(ecs), d as int));
                    let pot = ecs.potions[potion];
                    match pot {
                        Some(p) => {
                            assert(drink_effective(*old(ecs), d as int));
                            assert(s == old(ecs).combat_stats@[d as int].unwrap());
                            assert(s.valid());
                            assert(old(ecs).potions@[potion as int].unwrap().amount >= 0) by {
                                assert(old(ecs).wf());
                            }
                            let healed = if s.hp + p.amount < s.max_hp {
                                s.hp + p.amount
                            } else {
                                s.max_hp
                            };
                            ecs.combat_stats.set(
                                d,
                                Some(
                                    CombatStats {
                                        max_hp: s.max_hp,
                                        hp: healed,
                                        defense: s.defense,
                                        power: s.power,
                                    },
                                ),
                            );
                            ecs.to_delete.push(potion);
                            if d == player_entity {
                                ecs.log.push(
                                    LogEntry::Drank { who: d, potion, amount: p.amount },
                                );
                            }
                        },
                        None => {
                            assert(!drink_effective(*old(ecs), d as int));
                        },
                    }
                },
                _ => {
                    assert(!drink_acts(*old(ecs), d as int));
                },
            }
            d = d + 1;
        }
        let mut k: usize = 0;
        while k < n
            invariant
                old(ecs).wf(),
                ecs.wf(),
                n as int == old(ecs).n(),
                k <= n,
                forall|i: int| 0 <= i < old(ecs).n() ==> #[trigger] ecs.combat_stats@[i] == (
                if drink_effective(*old(ecs), i) {
                    Some(drunk_stats(*old(ecs), i))
                } else {
                    old(ecs).combat_stats@[i]
                }),
                ecs.to_delete@ == old(ecs).to_delete@ + drink_deletes(*old(ecs), old(ecs).n()),
                ecs.log.entries@ == old(ecs).log.entries@ + drink_log(*old(ecs), old(ecs).n()),
                forall|j: int| 0 <= j < k ==> (#[trigger] ecs.wants_drink@[j]) is None,
                forall|j: int| k <= j < old(ecs).n()
                    ==> #[trigger] ecs.wants_drink@[j] == old(ecs).wants_drink@[j],
                ecs.alive == old(ecs).alive,
                ecs.positions == old(ecs).positions,
                ecs.renderables == old(ecs).renderables,
                ecs.players == old(ecs).players,
                ecs.monsters == old(ecs).monsters,
                ecs.names == old(ecs).names,
                ecs.viewsheds == old(ecs).viewsheds,
                ecs.blocks_tile == old(ecs).blocks_tile,
                ecs.items == old(ecs).items,
                ecs.potions == old(ecs).potions,
                ecs.in_backpack == old(ecs).in_backpack,
                ecs.wants_melee == old(ecs).wants_melee,
                ecs.wants_pickup == old(ecs).wants_pickup,
                ecs.wants_drop == old(ecs).wants_drop,
                ecs.suffer_damage == old(ecs).suffer_damage,
                ecs.map == old(ecs).map,
                ecs.player_entity == old(ecs).player_entity,
                ecs.player_pos == old(ecs).player_pos,
                ecs.run_state == old(ecs).run_state,
            decreases n - k,
        {
            ecs.wants_drink.set(k, None);
            k = k + 1;
        }
    }
}

/// A non-item is never picked up when the pending pickups are valid.
pub proof fn lemma_last_picker_not_item(w: World, i: int, k: int)
    requires
        w.intents_valid(),
        0 <= i < w.n(),
        !w.items@[i],
    ensures
        last_picker(w, i, k) is None,
    decreases k,
{
    if k > 0 {
        if pickup_acts(w, k - 1) && pickup_item(w, k - 1) == i {
            assert(w.wants_pickup@[k - 1].is_some());
            assert(w.items@[i]);
        }
        lemma_last_picker_not_item(w, i, k - 1);
    }
}

/// Everything the drink pass schedules for deletion is a potion-bearing
/// entity, so never the player.
pub proof fn lemma_drink_deletes_potions(w: World, k: int)
    requires
        w.wf(),
        0 <= k <= w.n(),
    ensures
        forall|j: int| 0 <= j < drink_deletes(w, k).len() ==> {
            &&& (#[trigger] drink_deletes(w, k)[j] as int) < w.n()
            &&& w.potions@[drink_deletes(w, k)[j] as int].is_some()
        },
    decreases k,
{
    if k > 0 {
        lemma_drink_deletes_potions(w, k - 1);
        if drink_effective(w, k - 1) {
            assert(drink_deletes(w, k) == drink_deletes(w, k - 1).push(
                drink_potion(w, k - 1) as usize,
            ));
            assert forall|j: int| 0 <= j < drink_deletes(w, k).len() implies {
                &&& (#[trigger] drink_deletes(w, k)[j] as int) < w.n()
                &&& w.potions@[drink_deletes(w, k)[j] as int].is_some()
            } by {
                if j < drink_deletes(w, k - 1).len() {
                    assert(drink_deletes(w, k)[j] == drink_deletes(w, k - 1)[j]);
                } else {
                    assert(drink_deletes(w, k)[j] == drink_potion(w, k - 1) as usize);
                    assert(w.wants_drink@[k - 1].unwrap() < w.n());
                }
            }
        }
    }
}

/// Dropping an item places it at the dropper's exact current coordinates
/// and removes its backpack link; picking it back up removes the position
/// again and restores the backpack link with the collecting owner.
pub proof fn law_pickup_drop_round_trip(w0: World, w1: World, w2: World, d: int, i: int)
    requires
        w0.wf(),
        drop_rel(w0, w1),
        pickup_rel(w1, w2),
        0 <= i < w0.n(),
        0 <= d < w0.n(),
        last_dropper(w0, i, w0.n()) == Some(d),
        last_picker(w1, i, w1.n()) == Some(d),
        w0.positions@[d].is_some(),
    ensures
        w1.positions@[i] == w0.positions@[d],
        w1.in_backpack@[i] is None,
        w2.positions@[i] is None,
        w2.in_backpack@[i] == Some(d as usize),
{
    assert(w1.n() == w0.n());
}

/// Drinking never raises hit points above the maximum: the healed value is
/// the minimum of `max_hp` and `hp + amount`.
pub proof fn law_drink_clamped(w: World, d: int)
    requires
        w.wf(),
        0 <= d < w.n(),
        drink_effective(w, d),
    ensures
        drunk_stats(w, d).hp <= drunk_stats(w, d).max_hp,
        drunk_stats(w, d).hp as int == min(
            w.combat_stats@[d].unwrap().max_hp as int,
            w.combat_stats@[d].unwrap().hp + w.potions@[drink_potion(w, d)].unwrap().amount,
        ),
{
    assert(w.combat_stats@[d].unwrap().valid());
    assert(w.potions@[drink_potion(w, d)].unwrap().amount >= 0);
}

} // verus!
