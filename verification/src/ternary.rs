use vstd::prelude::*;

verus! {

/// A ternary state: -1, 0, or +1.
#[derive(Debug, Clone, Copy, PartialEq, Eq, Hash, Structural)]
pub enum Ternary {
    Neg,
    Zero,
    Pos,
}

/// Sum of the values of a sequence of ternary states.
pub open spec fn seq_sum(s: Seq<Ternary>) -> int
    decreases s.len(),
{
    if s.len() == 0 {
        0
    } else {
        seq_sum(s.drop_last()) + s.last().int_value()
    }
}

/// Sum of the absolute values of a sequence of ternary states.
pub open spec fn seq_energy(s: Seq<Ternary>) -> int
    decreases s.len(),
{
    if s.len() == 0 {
        0
    } else {
        seq_energy(s.drop_last()) + s.last().abs_value()
    }
}

/// Number of occurrences of `t` in `s`.
pub open spec fn count_of(s: Seq<Ternary>, t: Ternary) -> nat
    decreases s.len(),
{
    if s.len() == 0 {
        0
    } else {
        count_of(s.drop_last(), t) + if s.last() == t { 1nat } else { 0nat }
    }
}

impl Ternary {
    /// The integer that the state stands for.
    pub open spec fn int_value(self) -> int {
        match self {
            Ternary::Neg => -1,
            Ternary::Zero => 0,
            Ternary::Pos => 1,
        }
    }

    /// Absolute value of the state.
    pub open spec fn abs_value(self) -> int {
        match self {
            Ternary::Zero => 0,
            _ => 1,
        }
    }

    /// The state nearest to an integer: its sign.
    pub open spec fn clamp_spec(v: int) -> Ternary {
        if v <= -1 {
            Ternary::Neg
        } else if v == 0 {
            Ternary::Zero
        } else {
            Ternary::Pos
        }
    }

    pub fn value(self) -> (v: i8)
        ensures
            v == self.int_value(),
    {
        match self {
            Ternary::Neg => -1,
            Ternary::Zero => 0,
            Ternary::Pos => 1,
        }
    }

    /// The state whose value is `v`; `v` must be -1, 0 or 1.
    pub fn from_value(v: i8) -> (t: Self)
        requires
            -1 <= v <= 1,
        ensures
            t.int_value() == v,
    {
        if v == -1 {
            Ternary::Neg
        } else if v == 0 {
            Ternary::Zero
        } else {
            Ternary::Pos
        }
    }

    /// The sign of `v` as a ternary state.
    pub fn clamp(v: i8) -> (t: Self)
        ensures
            t == Self::clamp_spec(v as int),
            v <= -1 ==> t == Ternary::Neg,
            v == 0 ==> t == Ternary::Zero,
            v >= 1 ==> t == Ternary::Pos,
    {
        if v <= -1 {
            Ternary::Neg
        } else if v == 0 {
            Ternary::Zero
        } else {
            Ternary::Pos
        }
    }

    /// Sum of a slice of ternary values.
    pub fn sum(values: &[Ternary]) -> (s: i64)
        requires
            values@.len() <= i64::MAX,
        ensures
            s == seq_sum(values@),
    {
        let n = values.len();
        let mut acc: i64 = 0;
        let mut i: usize = 0;
        while i < n
            invariant
                n == values@.len(),
                n <= i64::MAX,
                i <= n,
                acc == seq_sum(values@.take(i as int)),
                -(i as int) <= acc <= i as int,
            decreases n - i,
        {
            proof {
                lemma_sum_bounds(values@.take(i as int + 1));
                assert(values@.take(i as int + 1).drop_last() =~= values@.take(i as int));
            }
            let v = values[i].value();
            acc = acc + v as i64;
            i = i + 1;
        }
        proof {
            assert(values@.take(n as int) =~= values@);
        }
        acc
    }

    /// Total energy: sum of absolute values.
    pub fn energy(values: &[Ternary]) -> (e: i64)
        requires
            values@.len() <= i64::MAX,
        ensures
            e == seq_energy(values@),
    {
        let n = values.len();
        let mut acc: i64 = 0;
        let mut i: usize = 0;
        while i < n
            invariant
                n == values@.len(),
                n <= i64::MAX,
                i <= n,
                acc == seq_energy(values@.take(i as int)),
                0 <= acc <= i as int,
            decreases n - i,
        {
            proof {
                lemma_sum_bounds(values@.take(i as int + 1));
                assert(values@.take(i as int + 1).drop_last() =~= values@.take(i as int));
            }
            let v = values[i];
            if v != Ternary::Zero {
                acc = acc + 1;
            }
            i = i + 1;
        }
        proof {
            assert(values@.take(n as int) =~= values@);
        }
        acc
    }
}

/// The sum and the energy of a sequence are fixed by how often each state
/// occurs: the sum is the number of `Pos` less the number of `Neg`, the
/// energy is the number of non-zero states, and the counts add up to the
/// length. Hence `|sum| <= energy <= len`.
pub proof fn lemma_sum_bounds(s: Seq<Ternary>)
    ensures
        count_of(s, Ternary::Neg) + count_of(s, Ternary::Zero) + count_of(s, Ternary::Pos)
            == s.len(),
        seq_sum(s) == count_of(s, Ternary::Pos) - count_of(s, Ternary::Neg),
        seq_energy(s) == count_of(s, Ternary::Pos) + count_of(s, Ternary::Neg),
        -seq_energy(s) <= seq_sum(s) <= seq_energy(s) <= s.len(),
    decreases s.len(),
{
    if s.len() > 0 {
        lemma_sum_bounds(s.drop_last());
    }
}

/// `from_value` undoes `value`: the value of a state determines the state.
pub proof fn lemma_value_determines_state(t: Ternary, u: Ternary)
    requires
        t.int_value() == u.int_value(),
    ensures
        t == u,
{
}

/// `clamp` undoes `value`, and on -1, 0 and 1 it agrees with `from_value`.
pub proof fn lemma_clamp_of_value(t: Ternary, v: int)
    ensures
        Ternary::clamp_spec(t.int_value()) == t,
        -1 <= v <= 1 ==> Ternary::clamp_spec(v).int_value() == v,
{
}

/// `clamp` maps every integer to its sign: all negative integers to `Neg`,
/// zero to `Zero` and all positive integers to `Pos`. Hence it is monotone:
/// a larger integer never clamps to a smaller state.
pub proof fn lemma_clamp_is_sign(v: int, u: int)
    ensures
        v <= -1 ==> Ternary::clamp_spec(v) == Ternary::Neg,
        v == 0 ==> Ternary::clamp_spec(v) == Ternary::Zero,
        v >= 1 ==> Ternary::clamp_spec(v) == Ternary::Pos,
        v <= u ==> Ternary::clamp_spec(v).int_value() <= Ternary::clamp_spec(u).int_value(),
        Ternary::clamp_spec(v).int_value() * v >= 0,
        v != 0 ==> Ternary::clamp_spec(v).int_value() * v > 0,
{
    if v <= -1 {
        assert(Ternary::clamp_spec(v).int_value() * v == -v) by (nonlinear_arith)
            requires Ternary::clamp_spec(v).int_value() == -1;
    } else if v >= 1 {
        assert(Ternary::clamp_spec(v).int_value() * v == v) by (nonlinear_arith)
            requires Ternary::clamp_spec(v).int_value() == 1;
    }
}

/// `count_of(s, t)` is the number of elements of `s` equal to `t`: the
/// length of `s` filtered down to `t`.
pub proof fn lemma_count_is_filter_len(s: Seq<Ternary>, t: Ternary)
    ensures
        count_of(s, t) == s.filter(|x: Ternary| x == t).len(),
    decreases s.len(),
{
    let pred = |x: Ternary| x == t;
    reveal(Seq::filter);
    if s.len() > 0 {
        lemma_count_is_filter_len(s.drop_last(), t);
        let sub = s.drop_last().filter(pred);
        assert(s.filter(pred) == (if pred(s.last()) {
            sub.push(s.last())
        } else {
            sub
        }));
    }
}

} // verus!
