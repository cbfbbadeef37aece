//! The injectable random-number source: a small seedable generator exposing
//! "roll N dice of S sides" and "integer in range".  Spawn and map
//! generation consume it; the turn pipeline itself draws nothing.

use vstd::prelude::*;

verus! {

/// A seedable linear-congruential generator.  Determinism per seed is what
/// the core needs from it; no statistical claim is made.
pub struct Rng {
    pub state: u64,
}

impl Rng {
    pub fn new(seed: u64) -> (r: Rng) {
        Rng { state: seed }
    }

    /// Advances the generator and returns the next raw value.
    fn next(&mut self) -> (r: u64) {
        self.state = self.state.wrapping_mul(6364136223846793005).wrapping_add(1442695040888963407);
        self.state >> 33
    }

    /// A uniform-ish draw in `lo..hi`.
    pub fn range(&mut self, lo: i32, hi: i32) -> (r: i32)
        requires
            0 <= lo < hi,
        ensures
            lo <= r < hi,
    {
        let span = (hi - lo) as u64;
        let raw = self.next();
        let off = (raw % span) as i32;
        lo + off
    }

    /// Sum of `n` dice with `sides` sides each, as a tabletop roll would be.
    pub fn roll_dice(&mut self, n: i32, sides: i32) -> (r: i32)
        requires
            1 <= n <= 0x1000,
            1 <= sides <= 0x1000,
        ensures
            n <= r <= n * sides,
    {
        let mut total: i32 = 0;
        let mut i: i32 = 0;
        while i < n
            invariant
                0 <= i <= n,
                1 <= n <= 0x1000,
                1 <= sides <= 0x1000,
                i <= total <= i * sides,
            decreases n - i,
        {
            proof {
                assert(i * sides <= 0x1000 * 0x1000) by (nonlinear_arith)
                    requires
                        0 <= i <= 0x1000,
                        1 <= sides <= 0x1000,
                ;
                assert((i + 1) * sides == i * sides + sides) by (nonlinear_arith);
            }
            let die = self.range(1, sides + 1);
            total = total + die;
            i = i + 1;
        }
        total
    }
}

} // verus!
