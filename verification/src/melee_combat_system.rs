//! The combat resolver: turns every pending melee intent into pending
//! damage, logging each attempt, and clears all melee intents at the end of
//! the pass whether or not they were acted on.

use vstd::prelude::*;
use vstd::math::max;
use crate::game_log::LogEntry;
use crate::world::{lemma_seq_sum_push, seq_sum, World};

verus! {

/// The target of attacker `a`'s pending intent.
pub open spec fn melee_target(w: World, a: int) -> int {
    w.wants_melee@[a].unwrap() as int
}

/// Attacker `a` takes part in melee resolution: it holds an intent, has a
/// name and combat statistics, and still has positive hit points.
pub open spec fn melee_attempts(w: World, a: int) -> bool {
    &&& 0 <= a < w.n()
    &&& w.wants_melee@[a].is_some()
    &&& w.names@[a].is_some()
    &&& w.combat_stats@[a].is_some()
    &&& w.combat_stats@[a].unwrap().hp > 0
}

/// The attempt lands: the target is not already dying this pass.
pub open spec fn melee_acts(w: World, a: int) -> bool {
    melee_attempts(w, a) && w.combat_stats@[melee_target(w, a)].unwrap().hp > 0
}

/// Damage dealt by attacker `a`: attacker power less target defense,
/// floored at zero.
pub open spec fn melee_damage(w: World, a: int) -> int {
    max(
        0,
        w.combat_stats@[a].unwrap().power as int - w.combat_stats@[melee_target(
            w,
            a,
        )].unwrap().defense as int,
    )
}

/// Damage amounts appended to target `t`'s accumulator by the attackers
/// among the first `k` entities, in id order.  Zero-damage attempts append
/// nothing.
pub open spec fn melee_adds(w: World, t: int, k: int) -> Seq<i32>
    decreases k,
{
    if k <= 0 {
        Seq::empty()
    } else {
        let prev = melee_adds(w, t, k - 1);
        if melee_acts(w, k - 1) && melee_target(w, k - 1) == t && melee_damage(w, k - 1) > 0 {
            prev.push(melee_damage(w, k - 1) as i32)
        } else {
            prev
        }
    }
}

/// The log entry recorded for attacker `a`: an attack with its damage, or a
/// no-damage message.  Every attempt that lands is logged.
pub open spec fn melee_entry(w: World, a: int) -> LogEntry {
    if melee_damage(w, a) > 0 {
        LogEntry::Attack {
            attacker: a as usize,
            target: melee_target(w, a) as usize,
            amount: melee_damage(w, a) as i32,
        }
    } else {
        LogEntry::NoDamage { attacker: a as usize, target: melee_target(w, a) as usize }
    }
}

/// The log entries appended by the attackers among the first `k` entities,
/// in id order.
pub open spec fn melee_log(w: World, k: int) -> Seq<LogEntry>
    decreases k,
{
    if k <= 0 {
        Seq::empty()
    } else {
        let prev = melee_log(w, k - 1);
        if melee_acts(w, k - 1) {
            prev.push(melee_entry(w, k - 1))
        } else {
            prev
        }
    }
}

/// The exact effect of one combat-resolution pass on world `w0`.
pub open spec fn melee_rel(w0: World, w1: World) -> bool {
    &&& forall|t: int| 0 <= t < w0.n() ==> (#[trigger] w1.suffer_damage@[t])@
        == w0.suffer_damage@[t]@ + melee_adds(w0, t, w0.n())
    &&& w1.log.entries@ == w0.log.entries@ + melee_log(w0, w0.n())
    &&& forall|a: int| 0 <= a < w0.n() ==> (#[trigger] w1.wants_melee@[a]) is None
    &&& w1.alive == w0.alive
    &&& w1.positions == w0.positions
    &&& w1.renderables == w0.renderables
    &&& w1.players == w0.players
    &&& w1.monsters == w0.monsters
    &&& w1.names == w0.names
    &&& w1.viewsheds == w0.viewsheds
    &&& w1.blocks_tile == w0.blocks_tile
    &&& w1.combat_stats == w0.combat_stats
    &&& w1.items == w0.items
    &&& w1.potions == w0.potions
    &&& w1.in_backpack == w0.in_backpack
    &&& w1.wants_pickup == w0.wants_pickup
    &&& w1.wants_drop == w0.wants_drop
    &&& w1.wants_drink == w0.wants_drink
    &&& w1.to_delete == w0.to_delete
    &&& w1.map == w0.map
    &&& w1.player_entity == w0.player_entity
    &&& w1.player_pos == w0.player_pos
    &&& w1.run_state == w0.run_state
}

pub struct MeleeCombatSystem {}

impl MeleeCombatSystem {
    /// Resolves every pending melee intent of the pass.
    pub fn run(ecs: &mut World)
        requires
            old(ecs).wf(),
            old(ecs).intents_valid(),
        ensures
            final(ecs).wf(),
            melee_rel(*old(ecs), *final(ecs)),
    {
        let n = ecs.alive.len();
        let mut a: usize = 0;
        while a < n
            invariant
                old(ecs).wf(),
                old(ecs).intents_valid(),
                ecs.wf(),
                n as int == old(ecs).n(),
                a <= n,
                forall|t: int| 0 <= t < old(ecs).n() ==> (#[trigger] ecs.suffer_damage@[t])@
                    == old(ecs).suffer_damage@[t]@ + melee_adds(*old(ecs), t, a as int),
                ecs.log.entries@ == old(ecs).log.entries@ + melee_log(*old(ecs), a as int),
                ecs.alive == old(ecs).alive,
                ecs.positions == old(ecs).positions,
                ecs.renderables == old(ecs).renderables,
                ecs.players == old(ecs).players,
                ecs.monsters == old(ecs).monsters,
                ecs.names == old(ecs).names,
                ecs.viewsheds == old(ecs).viewsheds,
                ecs.blocks_tile == old(ecs).blocks_tile,
                ecs.combat_stats == old(ecs).combat_stats,
                ecs.items == old(ecs).items,
                ecs.potions == old(ecs).potions,
                ecs.in_backpack == old(ecs).in_backpack,
                ecs.wants_melee == old(ecs).wants_melee,
                ecs.wants_pickup == old(ecs).wants_pickup,
                ecs.wants_drop == old(ecs).wants_drop,
                ecs.wants_drink == old(ecs).wants_drink,
                ecs.to_delete == old(ecs).to_delete,
                ecs.map == old(ecs).map,
                ecs.player_entity == old(ecs).player_entity,
                ecs.player_pos == old(ecs).player_pos,
                ecs.run_state == old(ecs).run_state,
            decreases n - a,
        {
            let ghost w0 = *old(ecs);
            let intent = ecs.wants_melee[a];
            match intent {
                Some(target) => {
                    let has_name = match &ecs.names[a] {
                        Some(_) => true,
                        None => false,
                    };
                    let stats = ecs.combat_stats[a];
                    match stats {
                        Some(s) if has_name && s.hp > 0 => {
                            assert(melee_attempts(w0, a as int));
                            let target_stats = ecs.combat_stats[target].unwrap();
                            if target_stats.hp > 0 {
                                assert(melee_acts(w0, a as int));
                                let damage_wide = s.power - target_stats.defense;
                                let damage = if damage_wide > 0 {
                                    damage_wide
                                } else {
                                    0
                                };
                                assert(damage as int == melee_damage(w0, a as int));
                                if damage == 0 {
                                    ecs.log.push(
                                        LogEntry::NoDamage { attacker: a, target },
                                    );
                                } else {
                                    ecs.log.push(
                                        LogEntry::Attack { attacker: a, target, amount: damage },
                                    );
                                    let mut pending = ecs.suffer_damage[target].clone();
                                    pending.push(damage);
                                    ecs.suffer_damage.set(target, pending);
                                }
                            } else {
                                assert(!melee_acts(w0, a as int));
                            }
                        },
                        _ => {
                            assert(!melee_attempts(w0, a as int));
                        },
                    }
                },
                None => {
                    assert(!melee_attempts(w0, a as int));
                },
            }
            a = a + 1;
        }
        let mut c: usize = 0;
        while c < n
            invariant
                old(ecs).wf(),
                ecs.wf(),
                n as int == old(ecs).n(),
                c <= n,
                forall|t: int| 0 <= t < old(ecs).n() ==> (#[trigger] ecs.suffer_damage@[t])@
                    == old(ecs).suffer_damage@[t]@ + melee_adds(*old(ecs), t, old(ecs).n()),
                ecs.log.entries@ == old(ecs).log.entries@ + melee_log(*old(ecs), old(ecs).n()),
                forall|j: int| 0 <= j < c ==> (#[trigger] ecs.wants_melee@[j]) is None,
                forall|j: int| c <= j < old(ecs).n()
                    ==> #[trigger] ecs.wants_melee@[j] == old(ecs).wants_melee@[j],
                ecs.alive == old(ecs).alive,
                ecs.positions == old(ecs).positions,
                ecs.renderables == old(ecs).renderables,
                ecs.players == old(ecs).players,
                ecs.monsters == old(ecs).monsters,
                ecs.names == old(ecs).names,
                ecs.viewsheds == old(ecs).viewsheds,
                ecs.blocks_tile == old(ecs).blocks_tile,
                ecs.combat_stats == old(ecs).combat_stats,
                ecs.items == old(ecs).items,
                ecs.potions == old(ecs).potions,
                ecs.in_backpack == old(ecs).in_backpack,
                ecs.wants_pickup == old(ecs).wants_pickup,
                ecs.wants_drop == old(ecs).wants_drop,
                ecs.wants_drink == old(ecs).wants_drink,
                ecs.to_delete == old(ecs).to_delete,
                ecs.map == old(ecs).map,
                ecs.player_entity == old(ecs).player_entity,
                ecs.player_pos == old(ecs).player_pos,
                ecs.run_state == old(ecs).run_state,
            decreases n - c,
        {
            ecs.wants_melee.set(c, None);
            c = c + 1;
        }
    }
}

/// Every amount the combat resolver appends is strictly positive: a
/// zero-damage attempt never enqueues an entry, though it is always logged.
pub proof fn law_melee_no_zero_entries(w: World, t: int, k: int)
    requires
        w.wf(),
        w.intents_valid(),
        0 <= k <= w.n(),
    ensures
        forall|j: int| 0 <= j < melee_adds(w, t, k).len() ==> #[trigger] melee_adds(w, t, k)[j]
            > 0,
    decreases k,
{
    if k > 0 {
        law_melee_no_zero_entries(w, t, k - 1);
        if melee_acts(w, k - 1) && melee_target(w, k - 1) == t && melee_damage(w, k - 1) > 0 {
            assert(w.combat_stats@[k - 1].unwrap().valid());
            assert(w.combat_stats@[melee_target(w, k - 1)].unwrap().valid());
            assert(0 < melee_damage(w, k - 1) <= 0x7FFF);
            assert(melee_adds(w, t, k) == melee_adds(w, t, k - 1).push(
                melee_damage(w, k - 1) as i32,
            ));
            assert forall|j: int| 0 <= j < melee_adds(w, t, k).len() implies #[trigger] melee_adds(
                w,
                t,
                k,
            )[j] > 0 by {
                if j < melee_adds(w, t, k - 1).len() {
                    assert(melee_adds(w, t, k)[j] == melee_adds(w, t, k - 1)[j]);
                } else {
                    assert(melee_adds(w, t, k)[j] == melee_damage(w, k - 1) as i32);
                }
            }
        }
    }
}

/// Every attempt that lands is logged, as an attack carrying exactly
/// `max(0, power - defense)` damage, or as a no-damage message when that
/// difference is not positive.
pub proof fn law_melee_always_logged(w: World, a: int, k: int)
    requires
        melee_acts(w, a),
        0 <= a < k,
    ensures
        melee_log(w, k).contains(melee_entry(w, a)),
        melee_damage(w, a) == max(
            0,
            w.combat_stats@[a].unwrap().power as int - w.combat_stats@[melee_target(
                w,
                a,
            )].unwrap().defense as int,
        ),
    decreases k,
{
    if k - 1 == a {
        assert(melee_log(w, k)[melee_log(w, k - 1).len() as int] == melee_entry(w, a));
    } else {
        law_melee_always_logged(w, a, k - 1);
        let j = choose|j: int|
            0 <= j < melee_log(w, k - 1).len() && #[trigger] melee_log(w, k - 1)[j] == melee_entry(
                w,
                a,
            );
        if melee_acts(w, k - 1) {
            assert(melee_log(w, k)[j] == melee_entry(w, a));
        }
    }
}

/// Bounds used by the damage resolver: one pass appends at most one entry
/// per attacker, each inside the statistic cap, and only to targets that
/// were still alive when the pass began.
pub proof fn lemma_melee_adds_bounds(w: World, t: int, k: int)
    requires
        w.wf(),
        w.intents_valid(),
        0 <= t < w.n(),
        0 <= k <= w.n(),
    ensures
        melee_adds(w, t, k).len() <= k,
        0 <= seq_sum(melee_adds(w, t, k)) <= k * 0x7FFF,
        melee_adds(w, t, k).len() > 0 ==> w.combat_stats@[t].is_some()
            && w.combat_stats@[t].unwrap().hp >= 1,
        forall|j: int| 0 <= j < melee_adds(w, t, k).len() ==> 0 <= #[trigger] melee_adds(
            w,
            t,
            k,
        )[j] <= 0x7FFF,
    decreases k,
{
    if k > 0 {
        lemma_melee_adds_bounds(w, t, k - 1);
        if melee_acts(w, k - 1) && melee_target(w, k - 1) == t && melee_damage(w, k - 1) > 0 {
            let d = melee_damage(w, k - 1);
            assert(w.combat_stats@[k - 1].unwrap().valid());
            assert(w.combat_stats@[melee_target(w, k - 1)].unwrap().valid());
            assert(0 < d <= 0x7FFF);
            assert(melee_adds(w, t, k) == melee_adds(w, t, k - 1).push(d as i32));
            lemma_seq_sum_push(melee_adds(w, t, k - 1), d as i32);
            assert forall|j: int| 0 <= j < melee_adds(w, t, k).len() implies 0 <= #[trigger]
            melee_adds(w, t, k)[j] <= 0x7FFF by {
                if j < melee_adds(w, t, k - 1).len() {
                    assert(melee_adds(w, t, k)[j] == melee_adds(w, t, k - 1)[j]);
                } else {
                    assert(melee_adds(w, t, k)[j] == d as i32);
                }
            }
        }
    }
}

} // verus!
