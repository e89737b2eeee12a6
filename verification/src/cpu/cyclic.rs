//! The cycle counter: a tally of T-cycles, four to each bus transaction.

use vstd::prelude::*;

verus! {

/// The T-cycles that one bus transaction takes.
pub const CYCLES_PER_ACCESS: u64 = 4;

/// The tally `count` after `elapsed` more T-cycles. The tally is held in 64
/// bits and starts again from zero when they are used up.
pub open spec fn add_cycles(count: u64, elapsed: int) -> u64 {
    ((count + elapsed) % 0x1_0000_0000_0000_0000) as u64
}

/// Cycles that pass one after the other add up, and as long as the tally
/// fits in 64 bits it is the plain sum.
pub proof fn lemma_add_cycles(count: u64, first: int, second: int)
    requires
        0 <= first,
        0 <= second,
    ensures
        add_cycles(add_cycles(count, first), second) == add_cycles(count, first + second),
        add_cycles(count, 0) == count,
        count + first <= u64::MAX ==> add_cycles(count, first) == count + first,
{
    vstd::arithmetic::div_mod::lemma_add_mod_noop(
        count + first,
        second,
        0x1_0000_0000_0000_0000,
    );
    vstd::arithmetic::div_mod::lemma_mod_twice(count + first, 0x1_0000_0000_0000_0000);
    vstd::arithmetic::div_mod::lemma_add_mod_noop(
        (count + first) % 0x1_0000_0000_0000_0000,
        second,
        0x1_0000_0000_0000_0000,
    );
}

#[derive(Debug)]
pub struct Cyclic {
    cycles: u64,
}

impl View for Cyclic {
    type V = u64;

    closed spec fn view(&self) -> u64 {
        self.cycles
    }
}

impl Cyclic {
    /// A counter at zero.
    pub fn new() -> (counter: Cyclic)
        ensures
            counter@ == 0,
    {
        Cyclic { cycles: 0 }
    }

    /// The T-cycles counted so far.
    pub fn count(&self) -> (count: u64)
        ensures
            count == self@,
    {
        self.cycles
    }

    /// Puts the counter at `count`.
    pub fn set(&mut self, count: u64)
        ensures
            final(self)@ == count,
    {
        self.cycles = count;
    }

    /// Counts one bus transaction: four T-cycles.
    pub fn cycle(&mut self)
        ensures
            final(self)@ == add_cycles(old(self)@, 4),
    {
        self.cycles = self.cycles.wrapping_add(CYCLES_PER_ACCESS);
    }

    /// Counts `n` bus transactions: four T-cycles each.
    pub fn cycle_n(&mut self, n: u8)
        ensures
            final(self)@ == add_cycles(old(self)@, 4 * n),
    {
        self.cycles = self.cycles.wrapping_add(CYCLES_PER_ACCESS * (n as u64));
    }
}

impl Default for Cyclic {
    fn default() -> (counter: Cyclic)
        ensures
            counter@ == 0,
    {
        Cyclic::new()
    }
}

} // verus!
