//! The damage and mortality resolver.  Damage application subtracts the
//! exact sum of each entity's pending amounts from its hit points and
//! clears every accumulator; the mortality sweep then deletes everyone at
//! `hp < 1` except the player.

use vstd::prelude::*;
use crate::components::CombatStats;
use crate::game_log::LogEntry;
use crate::world::{lemma_seq_sum_bounds, lemma_seq_sum_push, seq_sum, World};

verus! {

/// The statistics of entity `e` after damage application: hit points
/// reduced by exactly the sum of the pending amounts.
pub open spec fn damaged_stats(w: World, e: int) -> Option<CombatStats> {
    match w.combat_stats@[e] {
        Some(s) => Some(
            CombatStats {
                max_hp: s.max_hp,
                hp: (s.hp - seq_sum(w.suffer_damage@[e]@)) as i32,
                defense: s.defense,
                power: s.power,
            },
        ),
        None => None,
    }
}

/// The exact effect of one damage-application pass on world `w0`.
pub open spec fn damage_rel(w0: World, w1: World) -> bool {
    &&& forall|e: int| 0 <= e < w0.n() ==> #[trigger] w1.combat_stats@[e] == damaged_stats(w0, e)
    &&& forall|e: int| 0 <= e < w0.n() ==> (#[trigger] w1.suffer_damage@[e])@
        == Seq::<i32>::empty()
    &&& w1.alive == w0.alive
    &&& w1.positions == w0.positions
    &&& w1.renderables == w0.renderables
    &&& w1.players == w0.players
    &&& w1.monsters == w0.monsters
    &&& w1.names == w0.names
    &&& w1.viewsheds == w0.viewsheds
    &&& w1.blocks_tile == w0.blocks_tile
    &&& w1.items == w0.items
    &&& w1.potions == w0.potions
    &&& w1.in_backpack == w0.in_backpack
    &&& w1.wants_melee == w0.wants_melee
    &&& w1.wants_pickup == w0.wants_pickup
    &&& w1.wants_drop == w0.wants_drop
    &&& w1.wants_drink == w0.wants_drink
    &&& w1.to_delete == w0.to_delete
    &&& w1.map == w0.map
    &&& w1.player_entity == w0.player_entity
    &&& w1.player_pos == w0.player_pos
    &&& w1.run_state == w0.run_state
    &&& w1.log == w0.log
}

pub struct DamageSystem {}

impl DamageSystem {
    /// Applies every pending damage amount: for each entity with combat
    /// statistics, the new hit points equal the old ones minus the exact
    /// sum of that pass's amounts, and every accumulator is emptied whether
    /// or not it held entries.
    pub fn run(ecs: &mut World)
        requires
            old(ecs).wf(),
            forall|e: int|
                0 <= e < old(ecs).n() && (#[trigger] old(ecs).combat_stats@[e]).is_some()
                    && old(ecs).suffer_damage@[e]@.len() > 0
                    ==> old(ecs).combat_stats@[e].unwrap().hp >= 1 && old(ecs).suffer_sum(e)
                    <= 0x3FFF_FFFF,
        ensures
            final(ecs).wf(),
            damage_rel(*old(ecs), *final(ecs)),
    {
        let n = ecs.alive.len();
        let mut e: usize = 0;
        while e < n
            invariant
                old(ecs).wf(),
                forall|i: int|
                    0 <= i < old(ecs).n() && (#[trigger] old(ecs).combat_stats@[i]).is_some()
                        && old(ecs).suffer_damage@[i]@.len() > 0
                        ==> old(ecs).combat_stats@[i].unwrap().hp >= 1 && old(ecs).suffer_sum(i)
                        <= 0x3FFF_FFFF,
                ecs.wf(),
                n as int == old(ecs).n(),
                e <= n,
                forall|i: int| 0 <= i < e ==> #[trigger] ecs.combat_stats@[i] == damaged_stats(
                    *old(ecs),
                    i,
                ),
                forall|i: int| e <= i < old(ecs).n()
                    ==> #[trigger] ecs.combat_stats@[i] == old(ecs).combat_stats@[i],
                forall|i: int| 0 <= i < e ==> (#[trigger] ecs.suffer_damage@[i])@
                    == Seq::<i32>::empty(),
                forall|i: int| e <= i < old(ecs).n()
                    ==> #[trigger] ecs.suffer_damage@[i] == old(ecs).suffer_damage@[i],
                ecs.alive == old(ecs).alive,
                ecs.positions == old(ecs).positions,
                ecs.renderables == old(ecs).renderables,
                ecs.players == old(ecs).players,
                ecs.monsters == old(ecs).monsters,
                ecs.names == old(ecs).names,
                ecs.viewsheds == old(ecs).viewsheds,
                ecs.blocks_tile == old(ecs).blocks_tile,
                ecs.items == old(ecs).items,
                ecs.potions == old(ecs).potions,
                ecs.in_backpack == old(ecs).in_backpack,
                ecs.wants_melee == old(ecs).wants_melee,
                ecs.wants_pickup == old(ecs).wants_pickup,
                ecs.wants_drop == old(ecs).wants_drop,
                ecs.wants_drink == old(ecs).wants_drink,
                ecs.to_delete == old(ecs).to_delete,
                ecs.map == old(ecs).map,
                ecs.player_entity == old(ecs).player_entity,
                ecs.player_pos == old(ecs).player_pos,
                ecs.run_state == old(ecs).run_state,
                ecs.log == old(ecs).log,
            decreases n - e,
        {
            let stats = ecs.combat_stats[e];
            match stats {
                Some(s) => {
                    let pending = &ecs.suffer_damage[e];
                    let mut total: i32 = 0;
                    let mut k: usize = 0;
                    proof {
                        lemma_seq_sum_bounds(old(ecs).suffer_damage@[e as int]@);
                    }
                    while k < pending.len()
                        invariant
                            old(ecs).wf(),
                            k <= pending@.len(),
                            pending@ == old(ecs).suffer_damage@[e as int]@,
                            e < old(ecs).n(),
                            total == seq_sum(pending@.subrange(0, k as int)),
                            0 <= total <= seq_sum(pending@),
                            seq_sum(pending@) <= 0x4000_0000,
                        decreases pending@.len() - k,
                    {
                        let d = pending[k];
                        proof {
                            assert(pending@.subrange(0, k as int + 1) =~= pending@.subrange(
                                0,
                                k as int,
                            ).push(pending@[k as int]));
                            lemma_seq_sum_push(pending@.subrange(0, k as int), pending@[k as int]);
                            lemma_seq_sum_split(pending@, k as int + 1);
                            lemma_seq_sum_bounds(pending@.subrange(k as int + 1, pending@.len() as int));
                        }
                        total = total + d;
                        k = k + 1;
                    }
                    proof {
                        assert(pending@.subrange(0, pending@.len() as int) =~= pending@);
                    }
                    let new_hp = s.hp - total;
                    ecs.combat_stats.set(
                        e,
                        Some(
                            CombatStats {
                                max_hp: s.max_hp,
                                hp: new_hp,
                                defense: s.defense,
                                power: s.power,
                            },
                        ),
                    );
                },
                None => {},
            }
            let fresh: Vec<i32> = Vec::new();
            assert(fresh@ == Seq::<i32>::empty());
            ecs.suffer_damage.set(e, fresh);
            e = e + 1;
        }
    }
}

/// The sum of a list splits at any point into the sum of the prefix and
/// the sum of the rest.
pub proof fn lemma_seq_sum_split(s: Seq<i32>, k: int)
    requires
        0 <= k <= s.len(),
    ensures
        seq_sum(s) == seq_sum(s.subrange(0, k)) + seq_sum(s.subrange(k, s.len() as int)),
    decreases s.len() - k,
{
    if k == s.len() {
        assert(s.subrange(0, k) =~= s);
        assert(seq_sum(s.subrange(k, s.len() as int)) == 0);
    } else {
        lemma_seq_sum_split(s, k + 1);
        assert(s.subrange(0, k + 1) =~= s.subrange(0, k).push(s[k]));
        lemma_seq_sum_push(s.subrange(0, k), s[k]);
        assert(s.subrange(k, s.len() as int).drop_last() =~= s.subrange(k, s.len() as int - 1));
        let tail = s.subrange(k, s.len() as int);
        let tail1 = s.subrange(k + 1, s.len() as int);
        lemma_seq_sum_pop_front(s, k);
    }
}

/// Removing the first element of a suffix subtracts exactly that element.
proof fn lemma_seq_sum_pop_front(s: Seq<i32>, k: int)
    requires
        0 <= k < s.len(),
    ensures
        seq_sum(s.subrange(k, s.len() as int)) == s[k] + seq_sum(
            s.subrange(k + 1, s.len() as int),
        ),
    decreases s.len() - k,
{
    let tail = s.subrange(k, s.len() as int);
    if k + 1 == s.len() {
        assert(tail.drop_last() =~= Seq::<i32>::empty());
        assert(tail.last() == s[k]);
        assert(s.subrange(k + 1, s.len() as int) =~= Seq::<i32>::empty());
    } else {
        assert(tail.drop_last() =~= s.subrange(k, s.len() as int - 1));
        let s_short = s.subrange(0, s.len() as int - 1);
        assert(s_short.subrange(k, s_short.len() as int) =~= s.subrange(k, s.len() as int - 1));
        assert(s_short.subrange(k + 1, s_short.len() as int) =~= s.subrange(
            k + 1,
            s.len() as int - 1,
        ));
        lemma_seq_sum_pop_front(s_short, k);
        assert(s.subrange(k + 1, s.len() as int).drop_last() =~= s.subrange(
            k + 1,
            s.len() as int - 1,
        ));
        assert(s.subrange(k + 1, s.len() as int).last() == s.last());
        assert(tail.last() == s.last());
    }
}

/// Entity `e` dies this sweep: it has statistics, its hit points are below
/// one, and it is not the player.
pub open spec fn doomed(w: World, e: int) -> bool {
    &&& 0 <= e < w.n()
    &&& w.combat_stats@[e].is_some()
    &&& w.combat_stats@[e].unwrap().hp < 1
    &&& !w.players@[e]
}

/// The slain messages appended by the sweep for the first `k` entities, in
/// id order; a victim is named in the log only when it has a name.
pub open spec fn slain_log(w: World, k: int) -> Seq<LogEntry>
    decreases k,
{
    if k <= 0 {
        Seq::empty()
    } else {
        let prev = slain_log(w, k - 1);
        if doomed(w, k - 1) && w.names@[k - 1].is_some() {
            prev.push(LogEntry::Slain { victim: (k - 1) as usize })
        } else {
            prev
        }
    }
}

/// The exact effect of one mortality sweep on world `w0`.
pub open spec fn delete_dead_rel(w0: World, w1: World) -> bool {
    &&& forall|e: int| 0 <= e < w0.n() && doomed(w0, e) ==> {
        &&& !(#[trigger] w1.alive@[e])
        &&& w1.positions@[e] is None
        &&& w1.combat_stats@[e] is None
        &&& !w1.players@[e]
        &&& !w1.monsters@[e]
        &&& !w1.blocks_tile@[e]
        &&& w1.viewsheds@[e] is None
        &&& !w1.items@[e]
        &&& w1.potions@[e] is None
        &&& w1.in_backpack@[e] is None
        &&& w1.wants_melee@[e] is None
        &&& w1.wants_pickup@[e] is None
        &&& w1.wants_drop@[e] is None
        &&& w1.wants_drink@[e] is None
        &&& w1.suffer_damage@[e]@ == Seq::<i32>::empty()
    }
    &&& forall|e: int| 0 <= e < w0.n() && !doomed(w0, e) ==> {
        &&& #[trigger] w1.alive@[e] == w0.alive@[e]
        &&& w1.positions@[e] == w0.positions@[e]
        &&& w1.renderables@[e] == w0.renderables@[e]
        &&& w1.players@[e] == w0.players@[e]
        &&& w1.monsters@[e] == w0.monsters@[e]
        &&& w1.viewsheds@[e] == w0.viewsheds@[e]
        &&& w1.blocks_tile@[e] == w0.blocks_tile@[e]
        &&& w1.combat_stats@[e] == w0.combat_stats@[e]
        &&& w1.items@[e] == w0.items@[e]
        &&& w1.potions@[e] == w0.potions@[e]
        &&& w1.in_backpack@[e] == w0.in_backpack@[e]
        &&& w1.wants_melee@[e] == w0.wants_melee@[e]
        &&& w1.wants_pickup@[e] == w0.wants_pickup@[e]
        &&& w1.wants_drop@[e] == w0.wants_drop@[e]
        &&& w1.wants_drink@[e] == w0.wants_drink@[e]
        &&& w1.suffer_damage@[e] == w0.suffer_damage@[e]
    }
    &&& w1.names@ == w0.names@
    &&& w1.log.entries@ == w0.log.entries@ + slain_log(w0, w0.n())
    &&& w1.to_delete == w0.to_delete
    &&& w1.map == w0.map
    &&& w1.player_entity == w0.player_entity
    &&& w1.player_pos == w0.player_pos
    &&& w1.run_state == w0.run_state
    &&& w1.alive@.len() == w0.alive@.len()
}

/// With nobody doomed, the sweep logs nothing.
pub proof fn lemma_slain_log_empty(w: World, k: int)
    requires
        forall|e: int| 0 <= e < k ==> !doomed(w, e),
    ensures
        slain_log(w, k) == Seq::<LogEntry>::empty(),
    decreases k,
{
    if k > 0 {
        lemma_slain_log_empty(w, k - 1);
    }
}

/// A mortality sweep over a world whose dead were already removed changes
/// nothing.
pub proof fn lemma_delete_noop(w0: World, w1: World)
    requires
        w0.wf(),
        w1.wf(),
        w0.no_undead(),
        delete_dead_rel(w0, w1),
    ensures
        crate::world::same_world(w0, w1),
{
    assert forall|e: int| 0 <= e < w0.n() implies !doomed(w0, e) by {
        if doomed(w0, e) {
            assert(w0.combat_stats@[e] is Some);
            assert(e == w0.player_entity as int);
            assert(w0.players@[e]);
        }
    }
    lemma_slain_log_empty(w0, w0.n());
    assert forall|e: int| 0 <= e < w0.n() implies w1.alive@[e] == w0.alive@[e]
        && w1.positions@[e] == w0.positions@[e] && w1.renderables@[e] == w0.renderables@[e]
        && w1.players@[e] == w0.players@[e] && w1.monsters@[e] == w0.monsters@[e]
        && w1.viewsheds@[e] == w0.viewsheds@[e] && w1.blocks_tile@[e] == w0.blocks_tile@[e]
        && w1.combat_stats@[e] == w0.combat_stats@[e] && w1.items@[e] == w0.items@[e]
        && w1.potions@[e] == w0.potions@[e] && w1.in_backpack@[e] == w0.in_backpack@[e]
        && w1.wants_melee@[e] == w0.wants_melee@[e] && w1.wants_pickup@[e]
        == w0.wants_pickup@[e] && w1.wants_drop@[e] == w0.wants_drop@[e] && w1.wants_drink@[e]
        == w0.wants_drink@[e] && w1.suffer_damage@[e] == w0.suffer_damage@[e] by {
        assert(!doomed(w0, e));
        assert(w1.alive@[e] == w0.alive@[e]);
    }
    assert(w1.log.entries@ =~= w0.log.entries@);
    assert(w1.alive@ =~= w0.alive@);
    assert(w1.positions@ =~= w0.positions@);
    assert(w1.renderables@ =~= w0.renderables@);
    assert(w1.players@ =~= w0.players@);
    assert(w1.monsters@ =~= w0.monsters@);
    assert(w1.viewsheds@ =~= w0.viewsheds@);
    assert(w1.blocks_tile@ =~= w0.blocks_tile@);
    assert(w1.combat_stats@ =~= w0.combat_stats@);
    assert(w1.items@ =~= w0.items@);
    assert(w1.potions@ =~= w0.potions@);
    assert(w1.in_backpack@ =~= w0.in_backpack@);
    assert(w1.wants_melee@ =~= w0.wants_melee@);
    assert(w1.wants_pickup@ =~= w0.wants_pickup@);
    assert(w1.wants_drop@ =~= w0.wants_drop@);
    assert(w1.wants_drink@ =~= w0.wants_drink@);
    assert(w1.suffer_damage@ =~= w0.suffer_damage@);
}

/// The mortality sweep: collects everyone with statistics at `hp < 1`,
/// logs the named ones as slain, and deletes them after the sweep; the
/// player is retained even at `hp < 1`, as a placeholder for a future
/// defeat condition.
pub fn delete_the_dead(ecs: &mut World)
    requires
        old(ecs).wf(),
    ensures
        final(ecs).wf(),
        delete_dead_rel(*old(ecs), *final(ecs)),
        final(ecs).no_undead(),
{
    let n = ecs.alive.len();
    let mut dead: Vec<usize> = Vec::new();
    let mut e: usize = 0;
    while e < n
        invariant
            old(ecs).wf(),
            ecs.wf(),
            n as int == old(ecs).n(),
            e <= n,
            forall|j: int| 0 <= j < dead@.len() ==> doomed(*old(ecs), #[trigger] dead@[j] as int),
            forall|i: int| 0 <= i < e && doomed(*old(ecs), i) ==> dead@.contains(i as usize),
            forall|j: int| 0 <= j < dead@.len() ==> (#[trigger] dead@[j] as int) < e,
            ecs.log.entries@ == old(ecs).log.entries@ + slain_log(*old(ecs), e as int),
            ecs.alive == old(ecs).alive,
            ecs.positions == old(ecs).positions,
            ecs.renderables == old(ecs).renderables,
            ecs.players == old(ecs).players,
            ecs.monsters == old(ecs).monsters,
            ecs.names == old(ecs).names,
            ecs.viewsheds == old(ecs).viewsheds,
            ecs.blocks_tile == old(ecs).blocks_tile,
            ecs.combat_stats == old(ecs).combat_stats,
            ecs.items == old(ecs).items,
            ecs.potions == old(ecs).potions,
            ecs.in_backpack == old(ecs).in_backpack,
            ecs.wants_melee == old(ecs).wants_melee,
            ecs.wants_pickup == old(ecs).wants_pickup,
            ecs.wants_drop == old(ecs).wants_drop,
            ecs.wants_drink == old(ecs).wants_drink,
            ecs.suffer_damage == old(ecs).suffer_damage,
            ecs.to_delete == old(ecs).to_delete,
            ecs.map == old(ecs).map,
            ecs.player_entity == old(ecs).player_entity,
            ecs.player_pos == old(ecs).player_pos,
            ecs.run_state == old(ecs).run_state,
        decreases n - e,
    {
        let stats = ecs.combat_stats[e];
        match stats {
            Some(s) => {
                if s.hp < 1 {
                    if !ecs.players[e] {
                        assert(doomed(*old(ecs), e as int));
                        let ghost pre_dead = dead@;
                        dead.push(e);
                        proof {
                            assert forall|i: int|
                                0 <= i < e + 1 && doomed(*old(ecs), i) implies dead@.contains(
                                i as usize,
                            ) by {
                                crate::world::lemma_push_contains(pre_dead, e, i as usize);
                            }
                        }
                        let has_name = match &ecs.names[e] {
                            Some(_) => true,
                            None => false,
                        };
                        if has_name {
                            ecs.log.push(LogEntry::Slain { victim: e });
                        }
                    }
                }
            },
            None => {},
        }
        e = e + 1;
    }
    let ghost w0 = *old(ecs);
    let ghost log_done = ecs.log;
    let mut d: usize = 0;
    while d < dead.len()
        invariant
            w0.wf(),
            ecs.wf(),
            n as int == w0.n(),
            d <= dead@.len(),
            forall|j: int| 0 <= j < dead@.len() ==> doomed(w0, #[trigger] dead@[j] as int),
            forall|i: int| 0 <= i < w0.n() && doomed(w0, i) ==> dead@.contains(i as usize),
            ecs.n() == w0.n(),
            forall|i: int|
                0 <= i < w0.n() && #[trigger] dead@.subrange(0, d as int).contains(i as usize)
                    ==> {
                &&& !ecs.alive@[i]
                &&& ecs.positions@[i] is None
                &&& ecs.combat_stats@[i] is None
                &&& !ecs.players@[i]
                &&& !ecs.monsters@[i]
                &&& !ecs.blocks_tile@[i]
                &&& ecs.viewsheds@[i] is None
                &&& !ecs.items@[i]
                &&& ecs.potions@[i] is None
                &&& ecs.in_backpack@[i] is None
                &&& ecs.wants_melee@[i] is None
                &&& ecs.wants_pickup@[i] is None
                &&& ecs.wants_drop@[i] is None
                &&& ecs.wants_drink@[i] is None
                &&& ecs.suffer_damage@[i]@ == Seq::<i32>::empty()
            },
            forall|i: int|
                0 <= i < w0.n() && !(#[trigger] dead@.subrange(0, d as int).contains(i as usize))
                    ==> {
                &&& ecs.alive@[i] == w0.alive@[i]
                &&& ecs.positions@[i] == w0.positions@[i]
                &&& ecs.renderables@[i] == w0.renderables@[i]
                &&& ecs.players@[i] == w0.players@[i]
                &&& ecs.monsters@[i] == w0.monsters@[i]
                &&& ecs.viewsheds@[i] == w0.viewsheds@[i]
                &&& ecs.blocks_tile@[i] == w0.blocks_tile@[i]
                &&& ecs.combat_stats@[i] == w0.combat_stats@[i]
                &&& ecs.items@[i] == w0.items@[i]
                &&& ecs.potions@[i] == w0.potions@[i]
                &&& ecs.in_backpack@[i] == w0.in_backpack@[i]
                &&& ecs.wants_melee@[i] == w0.wants_melee@[i]
                &&& ecs.wants_pickup@[i] == w0.wants_pickup@[i]
                &&& ecs.wants_drop@[i] == w0.wants_drop@[i]
                &&& ecs.wants_drink@[i] == w0.wants_drink@[i]
                &&& ecs.suffer_damage@[i] == w0.suffer_damage@[i]
            },
            ecs.names@ == w0.names@,
            ecs.log == log_done,
            log_done.entries@ == w0.log.entries@ + slain_log(w0, w0.n()),
            ecs.to_delete == w0.to_delete,
            ecs.map == w0.map,
            ecs.player_entity == w0.player_entity,
            ecs.player_pos == w0.player_pos,
            ecs.run_state == w0.run_state,
        decreases dead@.len() - d,
    {
        let victim = dead[d];
        assert(doomed(w0, victim as int));
        ecs.clear_entity(victim);
        proof {
            let pre_sub = dead@.subrange(0, d as int);
            let post_sub = dead@.subrange(0, d as int + 1);
            assert(post_sub =~= pre_sub.push(victim));
            assert forall|x: usize| #[trigger] post_sub.contains(x) <==> (pre_sub.contains(x) || x
                == victim) by {
                crate::world::lemma_push_contains(pre_sub, victim, x);
            }
        }
        d = d + 1;
    }
    proof {
        let full = dead@.subrange(0, dead@.len() as int);
        assert(full =~= dead@);
        assert forall|i: int| 0 <= i < w0.n() && dead@.contains(i as usize) implies doomed(
            w0,
            i,
        ) by {
            let j = choose|j: int| 0 <= j < dead@.len() && #[trigger] dead@[j] == i as usize;
            assert(doomed(w0, dead@[j] as int));
        }
        assert forall|i: int| 0 <= i < w0.n() && doomed(w0, i) implies #[trigger] full.contains(
            i as usize,
        ) by {
            assert(dead@.contains(i as usize));
        }
        assert forall|i: int| 0 <= i < w0.n() && !doomed(w0, i) implies !(#[trigger] full.contains(
            i as usize,
        )) by {
            if dead@.contains(i as usize) {
                assert(doomed(w0, i));
            }
        }
        assert forall|e2: int| 0 <= e2 < w0.n() && doomed(w0, e2) implies {
            &&& !(ecs.alive@[e2])
            &&& ecs.positions@[e2] is None
            &&& ecs.combat_stats@[e2] is None
            &&& !ecs.players@[e2]
            &&& !ecs.monsters@[e2]
            &&& !ecs.blocks_tile@[e2]
            &&& ecs.viewsheds@[e2] is None
            &&& !ecs.items@[e2]
            &&& ecs.potions@[e2] is None
            &&& ecs.in_backpack@[e2] is None
            &&& ecs.wants_melee@[e2] is None
            &&& ecs.wants_pickup@[e2] is None
            &&& ecs.wants_drop@[e2] is None
            &&& ecs.wants_drink@[e2] is None
            &&& ecs.suffer_damage@[e2]@ == Seq::<i32>::empty()
        } by {
            assert(dead@.contains(e2 as usize));
            assert(full.contains(e2 as usize));
        }
        assert forall|e2: int| 0 <= e2 < w0.n() && !doomed(w0, e2) implies {
            &&& ecs.alive@[e2] == w0.alive@[e2]
            &&& ecs.positions@[e2] == w0.positions@[e2]
            &&& ecs.renderables@[e2] == w0.renderables@[e2]
            &&& ecs.players@[e2] == w0.players@[e2]
            &&& ecs.monsters@[e2] == w0.monsters@[e2]
            &&& ecs.viewsheds@[e2] == w0.viewsheds@[e2]
            &&& ecs.blocks_tile@[e2] == w0.blocks_tile@[e2]
            &&& ecs.combat_stats@[e2] == w0.combat_stats@[e2]
            &&& ecs.items@[e2] == w0.items@[e2]
            &&& ecs.potions@[e2] == w0.potions@[e2]
            &&& ecs.in_backpack@[e2] == w0.in_backpack@[e2]
            &&& ecs.wants_melee@[e2] == w0.wants_melee@[e2]
            &&& ecs.wants_pickup@[e2] == w0.wants_pickup@[e2]
            &&& ecs.wants_drop@[e2] == w0.wants_drop@[e2]
            &&& ecs.wants_drink@[e2] == w0.wants_drink@[e2]
            &&& ecs.suffer_damage@[e2] == w0.suffer_damage@[e2]
        } by {
            assert(!full.contains(e2 as usize));
        }
        assert forall|e2: int|
            0 <= e2 < ecs.n() && (#[trigger] ecs.combat_stats@[e2]) is Some
                && ecs.combat_stats@[e2].unwrap().hp < 1 implies e2
            == ecs.player_entity as int by {
            if !doomed(w0, e2) {
                assert(ecs.combat_stats@[e2] == w0.combat_stats@[e2]);
                if !w0.players@[e2] {
                    assert(doomed(w0, e2));
                }
            } else {
                assert(dead@.contains(e2 as usize));
                assert(full.contains(e2 as usize));
            }
        }
    }
}

} // verus!
