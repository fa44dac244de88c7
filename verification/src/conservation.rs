use vstd::prelude::*;

use crate::ternary::{count_of, lemma_sum_bounds, seq_energy, seq_sum, Ternary};

verus! {

/// Conservation law checks for ternary systems.
#[derive(Debug, Clone, Copy)]
pub struct ConservationState {
    /// Sum of all ternary values.
    pub sum: i64,
    /// Total energy (sum of absolute values).
    pub energy: i64,
    /// Count of each state: (neg, zero, pos).
    pub counts: (usize, usize, usize),
}

impl ConservationState {
    /// The state of a signal: its sum, its energy and how often each state
    /// occurs in it.
    pub fn from_slice(values: &[Ternary]) -> (s: Self)
        requires
            values@.len() <= i64::MAX,
        ensures
            s.sum == seq_sum(values@),
            s.energy == seq_energy(values@),
            s.counts.0 == count_of(values@, Ternary::Neg),
            s.counts.1 == count_of(values@, Ternary::Zero),
            s.counts.2 == count_of(values@, Ternary::Pos),
            s.counts.0 + s.counts.1 + s.counts.2 == values@.len(),
            s.sum == s.counts.2 - s.counts.0,
            s.energy == s.counts.2 + s.counts.0,
            -s.energy <= s.sum <= s.energy <= values@.len(),
    {
        let n = values.len();
        let mut neg: usize = 0;
        let mut zero: usize = 0;
        let mut pos: usize = 0;
        let mut i: usize = 0;
        while i < n
            invariant
                n == values@.len(),
                i <= n,
                neg == count_of(values@.take(i as int), Ternary::Neg),
                zero == count_of(values@.take(i as int), Ternary::Zero),
                pos == count_of(values@.take(i as int), Ternary::Pos),
                neg + zero + pos == i,
            decreases n - i,
        {
            proof {
                assert(values@.take(i as int + 1).drop_last() =~= values@.take(i as int));
            }
            match values[i] {
                Ternary::Neg => neg += 1,
                Ternary::Zero => zero += 1,
                Ternary::Pos => pos += 1,
            }
            i += 1;
        }
        proof {
            assert(values@.take(n as int) =~= values@);
            lemma_sum_bounds(values@);
        }
        ConservationState {
            sum: Ternary::sum(values),
            energy: Ternary::energy(values),
            counts: (neg, zero, pos),
        }
    }
}

/// Find the noise level where a conservation law first fails.
pub struct ConservationBreakpoint;

} // verus!
