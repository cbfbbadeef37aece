//! The append-only game log.  The core records structured events naming
//! entities by id; the presentation layer renders them to text, looking names
//! up in the world store (names of deleted entities are retained there).

use vstd::prelude::*;

verus! {

/// One logged event.  Entities are named by id so that every contract can
/// state the logged content exactly.
#[derive(Clone, Copy, PartialEq, Eq, Structural, Debug)]
pub enum LogEntry {
    /// The opening message shown when a run starts.
    Intro,
    /// `attacker` dealt `amount` hit points of damage to `target`.
    Attack { attacker: usize, target: usize, amount: i32 },
    /// `attacker` struck `target` but dealt no damage.
    NoDamage { attacker: usize, target: usize },
    /// `victim` died and was scheduled for deletion.
    Slain { victim: usize },
    /// `by` picked up `item`.
    PickedUp { by: usize, item: usize },
    /// `by` dropped `item` at its own tile.
    Dropped { by: usize, item: usize },
    /// `who` drank `potion`, healing `amount` hit points at most.
    Drank { who: usize, potion: usize, amount: i32 },
}

/// Append-only ordered sequence of log events; the core only ever pushes.
#[derive(Clone, PartialEq, Eq, Debug)]
pub struct GameLog {
    pub entries: Vec<LogEntry>,
}

impl GameLog {
    pub fn new() -> (l: GameLog)
        ensures
            l.entries@ == Seq::<LogEntry>::empty(),
    {
        let entries: Vec<LogEntry> = Vec::new();
        assert(entries@ == Seq::<LogEntry>::empty());
        GameLog { entries }
    }

    pub fn push(&mut self, e: LogEntry)
        ensures
            final(self).entries@ == old(self).entries@.push(e),
    {
        self.entries.push(e);
    }
}

} // verus!
