//! Support for the menu collaborator: enumerating what an entity carries.

use vstd::prelude::*;
use crate::world::World;

verus! {

/// The items carried by `owner` among the first `k` entities, in id order.
pub open spec fn carried_upto(w: World, owner: usize, k: int) -> Seq<usize>
    decreases k,
{
    if k <= 0 {
        Seq::empty()
    } else if w.in_backpack@[k - 1] == Some(owner) {
        carried_upto(w, owner, k - 1).push((k - 1) as usize)
    } else {
        carried_upto(w, owner, k - 1)
    }
}

/// Enumerates the backpack of `owner`, in id order; this is what the menu
/// collaborator shows.
pub fn backpack_items(ecs: &World, owner: usize) -> (r: Vec<usize>)
    requires
        ecs.wf(),
    ensures
        r@ == carried_upto(*ecs, owner, ecs.n()),
{
    let n = ecs.alive.len();
    let mut r: Vec<usize> = Vec::new();
    assert(r@ == carried_upto(*ecs, owner, 0));
    let mut e: usize = 0;
    while e < n
        invariant
            ecs.wf(),
            n as int == ecs.n(),
            e <= n,
            r@ == carried_upto(*ecs, owner, e as int),
        decreases n - e,
    {
        let carried = match &ecs.in_backpack[e] {
            Some(o) => *o == owner,
            None => false,
        };
        if carried {
            r.push(e);
        }
        e = e + 1;
    }
    r
}


} // verus!
