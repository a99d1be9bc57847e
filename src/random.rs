//! A linear congruential generator that supplies the engine's random picks.
use crate::rain::Picks;
use vstd::prelude::*;

verus! {

/// Multiplier of the generator (Knuth's MMIX constants).
pub const LCG_MUL: u64 = 6364136223846793005;

/// Increment of the generator.
pub const LCG_INC: u64 = 1442695040888963407;

/// The generator's state.
#[derive(Copy, Clone, Debug, PartialEq, Eq, Structural)]
pub struct Lcg {
    pub state: u64,
}

/// One step of the generator: `state * LCG_MUL + LCG_INC` modulo 2^64.
pub open spec fn lcg_step(state: u64) -> u64 {
    ((state as nat * LCG_MUL as nat + LCG_INC as nat) % 0x1_0000_0000_0000_0000) as u64
}

/// The state after `k` steps.
pub open spec fn lcg_nth(state: u64, k: nat) -> u64
    decreases k,
{
    if k == 0 {
        state
    } else {
        lcg_step(lcg_nth(state, (k - 1) as nat))
    }
}

/// The number a state gives out: its upper half, the better mixed bits.
pub open spec fn lcg_output(state: u64) -> u64 {
    state >> 32u64
}

/// The picks drawn from seven consecutive steps after `state`.
pub open spec fn picks_from(state: u64) -> Picks {
    Picks {
        glyph: lcg_output(lcg_nth(state, 1)),
        head_colour: lcg_output(lcg_nth(state, 2)),
        tail_colour: lcg_output(lcg_nth(state, 3)),
        length: lcg_output(lcg_nth(state, 4)),
        offset: lcg_output(lcg_nth(state, 5)),
        speed: lcg_output(lcg_nth(state, 6)),
        delay: lcg_output(lcg_nth(state, 7)),
    }
}

/// The picks of column `i` when a frame's picks are drawn from `state`.
pub open spec fn column_picks(state: u64, i: nat) -> Picks {
    picks_from(lcg_nth(state, 7 * i))
}

/// Stepping `a` times and then `b` times is stepping `a + b` times.
proof fn lemma_lcg_nth_add(state: u64, a: nat, b: nat)
    ensures
        lcg_nth(lcg_nth(state, a), b) == lcg_nth(state, a + b),
    decreases b,
{
    if b > 0 {
        lemma_lcg_nth_add(state, a, (b - 1) as nat);
    }
}

impl Lcg {
    /// A generator started from `seed`.
    pub fn new(seed: u64) -> (r: Lcg)
        ensures
            r.state == seed,
    {
        Lcg { state: seed }
    }

    /// Steps the generator and returns the upper half of the new state.
    pub fn next_u64(&mut self) -> (r: u64)
        ensures
            final(self).state == lcg_step(old(self).state),
            r == lcg_output(final(self).state),
    {
        self.state = self.state.wrapping_mul(LCG_MUL).wrapping_add(LCG_INC);
        proof {
            let s = old(self).state as nat;
            let m = 0x1_0000_0000_0000_0000nat;
            vstd::arithmetic::div_mod::lemma_add_mod_noop(
                (s * LCG_MUL as nat) as int,
                LCG_INC as int,
                m as int,
            );
            vstd::arithmetic::div_mod::lemma_mod_twice(LCG_INC as int, m as int);
        }
        self.state >> 32u64
    }

    /// Draws the picks of one column for one frame.
    pub fn picks(&mut self) -> (r: Picks)
        ensures
            r == picks_from(old(self).state),
            final(self).state == lcg_nth(old(self).state, 7),
    {
        let ghost s = self.state;
        let glyph = self.next_u64();
        let head_colour = self.next_u64();
        let tail_colour = self.next_u64();
        let length = self.next_u64();
        let offset = self.next_u64();
        let speed = self.next_u64();
        let delay = self.next_u64();
        assert(self.state == lcg_nth(s, 7)) by {
            reveal_with_fuel(lcg_nth, 8);
        }
        assert(picks_from(s).glyph == glyph) by {
            reveal_with_fuel(lcg_nth, 8);
        }
        Picks { glyph, head_colour, tail_colour, length, offset, speed, delay }
    }

    /// Draws the picks of `columns` columns for one frame, column by column.
    pub fn frame_picks(&mut self, columns: usize) -> (r: Vec<Picks>)
        ensures
            r@.len() == columns,
            forall|i: int| 0 <= i < columns ==> #[trigger] r@[i] == column_picks(old(self).state, i as nat),
            final(self).state == lcg_nth(old(self).state, 7 * columns as nat),
    {
        let ghost s = self.state;
        let mut r: Vec<Picks> = Vec::new();
        let mut i: usize = 0;
        while i < columns
            invariant
                i <= columns,
                r@.len() == i,
                self.state == lcg_nth(s, 7 * i as nat),
                forall|j: int| 0 <= j < i ==> #[trigger] r@[j] == column_picks(s, j as nat),
            decreases columns - i,
        {
            let p = self.picks();
            proof {
                lemma_lcg_nth_add(s, 7 * i as nat, 7);
            }
            r.push(p);
            i = i + 1;
        }
        r
    }
}

} // verus!
