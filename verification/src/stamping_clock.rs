//! The shared accumulator: a single running total of stamped quantities.

use vstd::prelude::*;

use crate::tally::{lemma_sum_nonneg, lemma_sum_take_le, lemma_sum_take_succ, sum};

verus! {

/// An accumulator holding one running total. It is created at zero and
/// mutated only by [`StampingClock::stamp`], so the total equals the sum of
/// all quantities ever stamped into it and never decreases.
pub struct StampingClock {
    total: u32,
}

impl View for StampingClock {
    type V = nat;

    /// The abstract value of a clock is its running total.
    closed spec fn view(&self) -> nat {
        self.total as nat
    }
}

impl StampingClock {
    /// Creates a clock whose total is zero.
    pub fn new() -> (clock: StampingClock)
        ensures
            clock@ == 0,
    {
        StampingClock { total: 0 }
    }

    /// Adds a non-negative quantity of hours to the total. Stamping zero
    /// hours leaves the total unchanged.
    pub fn stamp(&mut self, hours: u32)
        requires
            old(self)@ + hours <= u32::MAX,
        ensures
            final(self)@ == old(self)@ + hours,
            final(self)@ >= old(self)@,
            hours == 0 ==> final(self)@ == old(self)@,
    {
        self.total = self.total + hours;
    }

    /// Stamps every quantity of `quantities` in turn: the total grows by
    /// exactly their sum.
    pub fn stamp_all(&mut self, quantities: &Vec<u32>)
        requires
            old(self)@ + sum(quantities@) <= u32::MAX,
        ensures
            final(self)@ == old(self)@ + sum(quantities@),
            final(self)@ >= old(self)@,
    {
        proof {
            lemma_sum_nonneg(quantities@);
        }
        let ghost start: nat = self@;
        let n: usize = quantities.len();
        let mut i: usize = 0;
        while i < n
            invariant
                n == quantities@.len(),
                i <= n,
                self@ == start + sum(quantities@.take(i as int)),
                start + sum(quantities@) <= u32::MAX,
            decreases n - i,
        {
            proof {
                lemma_sum_take_succ(quantities@, i as int);
                lemma_sum_take_le(quantities@, i as int + 1);
            }
            self.stamp(quantities[i]);
            i = i + 1;
        }
        proof {
            assert(quantities@.take(n as int) =~= quantities@);
        }
    }

    /// Reads the current total. A pure read: the clock is unchanged.
    pub fn total(&self) -> (t: u32)
        ensures
            t as nat == self@,
    {
        self.total
    }
}

} // verus!
