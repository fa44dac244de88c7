use vstd::prelude::*;

use crate::ternary::Ternary;

verus! {

/// Number of positions below `n` at which `a` and `b` differ.
pub open spec fn mismatches_upto(a: Seq<Ternary>, b: Seq<Ternary>, n: nat) -> nat
    decreases n,
{
    if n == 0 {
        0
    } else {
        mismatches_upto(a, b, (n - 1) as nat) + if a[n - 1] != b[n - 1] {
            1nat
        } else {
            0nat
        }
    }
}

/// Sum over the positions below `n` of the squared difference of the values
/// of `a` and `b`.
pub open spec fn squared_error_upto(a: Seq<Ternary>, b: Seq<Ternary>, n: nat) -> int
    decreases n,
{
    if n == 0 {
        0
    } else {
        let d = a[n - 1].int_value() - b[n - 1].int_value();
        squared_error_upto(a, b, (n - 1) as nat) + d * d
    }
}

/// Number of positions that two signals share: the shorter length.
pub open spec fn paired_len(a: Seq<Ternary>, b: Seq<Ternary>) -> nat {
    if a.len() <= b.len() {
        a.len()
    } else {
        b.len()
    }
}

/// Measure effective signal-to-noise ratio of ternary decisions.
pub struct SignalToNoise;

impl SignalToNoise {
    /// Number of paired positions at which `noisy` differs from `clean`: the
    /// numerator of the bit error rate.
    pub fn mismatch_count(clean: &[Ternary], noisy: &[Ternary]) -> (c: usize)
        ensures
            c == mismatches_upto(clean@, noisy@, paired_len(clean@, noisy@)),
    {
        let n = if clean.len() <= noisy.len() {
            clean.len()
        } else {
            noisy.len()
        };
        let mut count: usize = 0;
        let mut i: usize = 0;
        while i < n
            invariant
                n == paired_len(clean@, noisy@),
                i <= n,
                count == mismatches_upto(clean@, noisy@, i as nat),
                count <= i,
            decreases n - i,
        {
            if clean[i] != noisy[i] {
                count += 1;
            }
            i += 1;
        }
        count
    }

    /// Sum over the paired positions of the squared difference of the values:
    /// the numerator of the mean squared error and of the noise power.
    pub fn squared_error_sum(clean: &[Ternary], noisy: &[Ternary]) -> (e: u64)
        requires
            paired_len(clean@, noisy@) <= u64::MAX / 4,
        ensures
            e == squared_error_upto(clean@, noisy@, paired_len(clean@, noisy@)),
    {
        let n = if clean.len() <= noisy.len() {
            clean.len()
        } else {
            noisy.len()
        };
        let mut total: u64 = 0;
        let mut i: usize = 0;
        while i < n
            invariant
                n == paired_len(clean@, noisy@),
                n <= u64::MAX / 4,
                i <= n,
                total == squared_error_upto(clean@, noisy@, i as nat),
                total <= 4 * i,
            decreases n - i,
        {
            let d: i8 = clean[i].value() - noisy[i].value();
            let sq: u64 = if d == 0 {
                0
            } else if d == 1 || d == -1 {
                1
            } else {
                4
            };
            proof {
                lemma_small_square(d as int);
            }
            total = total + sq;
            i += 1;
        }
        total
    }
}

/// The squares of the differences of two ternary values: 0, 1 or 4.
proof fn lemma_small_square(d: int)
    requires
        -2 <= d <= 2,
    ensures
        d * d == (if d == 0 {
            0int
        } else if d == 1 || d == -1 {
            1int
        } else {
            4int
        }),
{
    if d == -2 {
        assert(d * d == 4) by (nonlinear_arith) requires d == -2;
    } else if d == -1 {
        assert(d * d == 1) by (nonlinear_arith) requires d == -1;
    } else if d == 0 {
        assert(d * d == 0) by (nonlinear_arith) requires d == 0;
    } else if d == 1 {
        assert(d * d == 1) by (nonlinear_arith) requires d == 1;
    } else {
        assert(d * d == 4) by (nonlinear_arith) requires d == 2;
    }
}

/// Each mismatch adds between 1 and 4 to the squared error and a match adds
/// nothing, so `mismatches <= squared error <= 4 * mismatches <= 4 * n`: the
/// mean squared error of two ternary signals never exceeds 4.
pub proof fn lemma_squared_error_bounds(a: Seq<Ternary>, b: Seq<Ternary>, n: nat)
    requires
        n <= a.len(),
        n <= b.len(),
    ensures
        mismatches_upto(a, b, n) <= squared_error_upto(a, b, n),
        squared_error_upto(a, b, n) <= 4 * mismatches_upto(a, b, n),
        mismatches_upto(a, b, n) <= n,
    decreases n,
{
    if n > 0 {
        lemma_squared_error_bounds(a, b, (n - 1) as nat);
        lemma_small_square(a[n - 1].int_value() - b[n - 1].int_value());
    }
}

/// A signal compared with itself has no errors.
pub proof fn lemma_identical_signals_have_no_error(a: Seq<Ternary>, n: nat)
    ensures
        mismatches_upto(a, a, n) == 0,
        squared_error_upto(a, a, n) == 0,
    decreases n,
{
    if n > 0 {
        lemma_identical_signals_have_no_error(a, (n - 1) as nat);
    }
}

/// Number of positions below `n` at which one signal is `Pos` and the other
/// `Neg`.
pub open spec fn flips_upto(a: Seq<Ternary>, b: Seq<Ternary>, n: nat) -> nat
    decreases n,
{
    if n == 0 {
        0
    } else {
        flips_upto(a, b, (n - 1) as nat) + if (a[n - 1] == Ternary::Pos && b[n - 1]
            == Ternary::Neg) || (a[n - 1] == Ternary::Neg && b[n - 1] == Ternary::Pos) {
            1nat
        } else {
            0nat
        }
    }
}

/// The squared error does not depend on which signal is called clean: it is
/// symmetric. Each position costs the square of the distance between the two
/// values, so a one-element pair costs exactly `(a - b)^2`, and in general
/// the total is the number of differing positions plus three for each
/// position where `Pos` meets `Neg` (a distance of 2 costs 4, of 1 costs 1).
pub proof fn lemma_squared_error_symmetric(a: Seq<Ternary>, b: Seq<Ternary>, n: nat)
    requires
        n <= a.len(),
        n <= b.len(),
    ensures
        squared_error_upto(a, b, n) == squared_error_upto(b, a, n),
        squared_error_upto(a, b, n) == mismatches_upto(a, b, n) + 3 * flips_upto(a, b, n),
        n == 1 ==> squared_error_upto(a, b, n) == (a[0].int_value() - b[0].int_value()) * (
        a[0].int_value() - b[0].int_value()),
    decreases n,
{
    if n > 0 {
        lemma_squared_error_symmetric(a, b, (n - 1) as nat);
        lemma_small_square(a[n - 1].int_value() - b[n - 1].int_value());
        lemma_small_square(b[n - 1].int_value() - a[n - 1].int_value());
    }
}

} // verus!
