use vstd::prelude::*;

use crate::ternary::{count_of, lemma_sum_bounds, Ternary};

verus! {

/// First index of the window of half-width `half` centred on `i`.
pub open spec fn window_start(i: int, half: int) -> int {
    if i >= half {
        i - half
    } else {
        0
    }
}

/// One past the last index of the window of half-width `half` centred on
/// `i`, in a signal of length `n`.
pub open spec fn window_end(i: int, half: int, n: int) -> int {
    if i + half + 1 <= n {
        i + half + 1
    } else {
        n
    }
}

/// The elements of `s` within `half` positions of `i`, cut off at both ends
/// of the signal.
pub open spec fn window(s: Seq<Ternary>, i: int, half: int) -> Seq<Ternary> {
    s.subrange(window_start(i, half), window_end(i, half, s.len() as int))
}

/// The most frequent state of `w`; ties go to `Pos`, then to `Neg`.
pub open spec fn majority_vote(w: Seq<Ternary>) -> Ternary {
    let neg = count_of(w, Ternary::Neg);
    let zero = count_of(w, Ternary::Zero);
    let pos = count_of(w, Ternary::Pos);
    if pos >= neg && pos >= zero {
        Ternary::Pos
    } else if neg >= pos && neg >= zero {
        Ternary::Neg
    } else {
        Ternary::Zero
    }
}

/// The states of `w` in ascending order.
pub open spec fn sorted_window(w: Seq<Ternary>) -> Seq<Ternary> {
    Seq::new(count_of(w, Ternary::Neg), |j: int| Ternary::Neg) + Seq::new(
        count_of(w, Ternary::Zero),
        |j: int| Ternary::Zero,
    ) + Seq::new(count_of(w, Ternary::Pos), |j: int| Ternary::Pos)
}

/// The median of `w`: the element at index `len / 2` of `w` sorted.
pub open spec fn median_of(w: Seq<Ternary>) -> Ternary {
    sorted_window(w)[w.len() as int / 2]
}

/// Each element of `s` replaced by the majority vote of its window.
pub open spec fn majority_filtered(s: Seq<Ternary>, window_size: nat) -> Seq<Ternary> {
    Seq::new(s.len(), |i: int| majority_vote(window(s, i, window_size as int / 2)))
}

/// Each element of `s` replaced by the median of its window.
pub open spec fn median_filtered(s: Seq<Ternary>, window_size: nat) -> Seq<Ternary> {
    Seq::new(s.len(), |i: int| median_of(window(s, i, window_size as int / 2)))
}

/// `passes` rounds of the majority filter applied to `s`.
pub open spec fn majority_passes(s: Seq<Ternary>, window_size: nat, passes: nat) -> Seq<Ternary>
    decreases passes,
{
    if passes == 0 {
        s
    } else {
        majority_passes(majority_filtered(s, window_size), window_size, (passes - 1) as nat)
    }
}

/// A window size that the filters accept: odd and positive.
pub open spec fn valid_window(window_size: nat) -> bool {
    window_size > 0 && window_size % 2 == 1
}

/// Simple denoising strategies for ternary signals.
pub struct DenoisingStrategy;

/// Counts of `Neg`, `Zero` and `Pos` in `signal[start..end]`.
fn count_range(signal: &[Ternary], start: usize, end: usize) -> (c: (usize, usize, usize))
    requires
        start <= end <= signal@.len(),
    ensures
        c.0 == count_of(signal@.subrange(start as int, end as int), Ternary::Neg),
        c.1 == count_of(signal@.subrange(start as int, end as int), Ternary::Zero),
        c.2 == count_of(signal@.subrange(start as int, end as int), Ternary::Pos),
        c.0 + c.1 + c.2 == end - start,
{
    let mut neg: usize = 0;
    let mut zero: usize = 0;
    let mut pos: usize = 0;
    let mut j: usize = start;
    while j < end
        invariant
            start <= j <= end <= signal@.len(),
            neg == count_of(signal@.subrange(start as int, j as int), Ternary::Neg),
            zero == count_of(signal@.subrange(start as int, j as int), Ternary::Zero),
            pos == count_of(signal@.subrange(start as int, j as int), Ternary::Pos),
            neg + zero + pos == j - start,
        decreases end - j,
    {
        proof {
            assert(signal@.subrange(start as int, j + 1).drop_last() =~= signal@.subrange(
                start as int,
                j as int,
            ));
        }
        match signal[j] {
            Ternary::Neg => neg += 1,
            Ternary::Zero => zero += 1,
            Ternary::Pos => pos += 1,
        }
        j += 1;
    }
    (neg, zero, pos)
}

/// The bounds of the window around `i`, in a signal of length `n`.
fn window_bounds(i: usize, half: usize, n: usize) -> (b: (usize, usize))
    requires
        i < n,
    ensures
        b.0 == window_start(i as int, half as int),
        b.1 == window_end(i as int, half as int, n as int),
        b.0 <= i < b.1 <= n,
{
    let start = if i >= half {
        i - half
    } else {
        0
    };
    let end = if half < n - i {
        i + half + 1
    } else {
        n
    };
    (start, end)
}

impl DenoisingStrategy {
    /// Apply a majority filter with the given window size (must be odd).
    /// Each element is replaced by the majority vote of its window.
    pub fn majority_filter(signal: &[Ternary], window_size: usize) -> (result: Vec<Ternary>)
        requires
            valid_window(window_size as nat),
        ensures
            result@ == majority_filtered(signal@, window_size as nat),
    {
        let n = signal.len();
        let half = window_size / 2;
        let mut result: Vec<Ternary> = Vec::new();
        let mut i: usize = 0;
        while i < n
            invariant
                n == signal@.len(),
                half == window_size / 2,
                i <= n,
                result@.len() == i,
                forall|j: int|
                    0 <= j < i ==> result@[j] == majority_vote(
                        #[trigger] window(signal@, j, half as int),
                    ),
            decreases n - i,
        {
            let (start, end) = window_bounds(i, half, n);
            let (neg, zero, pos) = count_range(signal, start, end);
            let winner = if pos >= neg && pos >= zero {
                Ternary::Pos
            } else if neg >= pos && neg >= zero {
                Ternary::Neg
            } else {
                Ternary::Zero
            };
            result.push(winner);
            i += 1;
        }
        proof {
            assert(result@ =~= majority_filtered(signal@, window_size as nat));
        }
        result
    }

    /// Apply a median filter with the given window size (must be odd).
    /// Each element is replaced by the median of its window.
    pub fn median_filter(signal: &[Ternary], window_size: usize) -> (result: Vec<Ternary>)
        requires
            valid_window(window_size as nat),
        ensures
            result@ == median_filtered(signal@, window_size as nat),
    {
        let n = signal.len();
        let half = window_size / 2;
        let mut result: Vec<Ternary> = Vec::new();
        let mut i: usize = 0;
        while i < n
            invariant
                n == signal@.len(),
                half == window_size / 2,
                i <= n,
                result@.len() == i,
                forall|j: int|
                    0 <= j < i ==> result@[j] == median_of(
                        #[trigger] window(signal@, j, half as int),
                    ),
            decreases n - i,
        {
            let (start, end) = window_bounds(i, half, n);
            let (neg, zero, pos) = count_range(signal, start, end);
            let mid = (end - start) / 2;
            let median: i8 = if mid < neg {
                -1
            } else if mid < neg + zero {
                0
            } else {
                1
            };
            let m = Ternary::from_value(median);
            proof {
                let w = window(signal@, i as int, half as int);
                lemma_median_by_counts(w);
            }
            result.push(m);
            i += 1;
        }
        proof {
            assert(result@ =~= median_filtered(signal@, window_size as nat));
        }
        result
    }

    /// Apply multiple passes of majority filter.
    pub fn majority_multi_pass(signal: &[Ternary], window_size: usize, passes: usize) -> (result:
        Vec<Ternary>)
        requires
            passes > 0 ==> valid_window(window_size as nat),
        ensures
            result@ == majority_passes(signal@, window_size as nat, passes as nat),
    {
        let mut current = vstd::slice::slice_to_vec(signal);
        let mut done: usize = 0;
        while done < passes
            invariant
                done <= passes,
                passes > 0 ==> valid_window(window_size as nat),
                majority_passes(current@, window_size as nat, (passes - done) as nat)
                    == majority_passes(signal@, window_size as nat, passes as nat),
            decreases passes - done,
        {
            current = Self::majority_filter(current.as_slice(), window_size);
            done += 1;
        }
        current
    }
}

/// The median read off the counts: with `k = len / 2`, it is the first state,
/// in ascending order, whose cumulative count exceeds `k`.
pub proof fn lemma_median_by_counts(w: Seq<Ternary>)
    requires
        w.len() > 0,
    ensures
        median_of(w) == (if w.len() / 2 < count_of(w, Ternary::Neg) {
            Ternary::Neg
        } else if w.len() / 2 < count_of(w, Ternary::Neg) + count_of(w, Ternary::Zero) {
            Ternary::Zero
        } else {
            Ternary::Pos
        }),
{
    lemma_sum_bounds(w);
    let k = w.len() / 2;
    let a = count_of(w, Ternary::Neg) as int;
    let b = count_of(w, Ternary::Zero) as int;
    let sw = sorted_window(w);
    assert(sw.len() == w.len());
    if k < a {
        assert(sw[k as int] == Ternary::Neg);
    } else if k < a + b {
        assert(sw[k as int] == Ternary::Zero);
    } else {
        assert(sw[k as int] == Ternary::Pos);
    }
}

/// Counting over a concatenation adds the counts of the parts.
pub proof fn lemma_count_concat(a: Seq<Ternary>, b: Seq<Ternary>, t: Ternary)
    ensures
        count_of(a + b, t) == count_of(a, t) + count_of(b, t),
    decreases b.len(),
{
    if b.len() == 0 {
        assert(a + b =~= a);
    } else {
        lemma_count_concat(a, b.drop_last(), t);
        assert((a + b).drop_last() =~= a + b.drop_last());
    }
}

/// In a sequence made of one state only, that state is counted at every
/// position and every other state never.
pub proof fn lemma_count_constant(w: Seq<Ternary>, t: Ternary)
    requires
        forall|j: int| 0 <= j < w.len() ==> w[j] == t,
    ensures
        count_of(w, t) == w.len(),
        forall|u: Ternary| u != t ==> #[trigger] count_of(w, u) == 0,
    decreases w.len(),
{
    if w.len() > 0 {
        lemma_count_constant(w.drop_last(), t);
        assert(w.last() == t);
        assert forall|u: Ternary| u != t implies #[trigger] count_of(w, u) == 0 by {
            assert(count_of(w.drop_last(), u) == 0);
        }
    } else {
        assert forall|u: Ternary| u != t implies #[trigger] count_of(w, u) == 0 by {}
    }
}

/// `sorted_window(w)` is `w` sorted: it is in ascending order and holds each
/// state exactly as often as `w` does.
pub proof fn lemma_sorted_window_sorts(w: Seq<Ternary>)
    ensures
        sorted_window(w).len() == w.len(),
        forall|i: int, j: int|
            0 <= i <= j < w.len() ==> (#[trigger] sorted_window(w)[i]).int_value()
                <= (#[trigger] sorted_window(w)[j]).int_value(),
        forall|t: Ternary| count_of(#[trigger] sorted_window(w), t) == count_of(w, t),
{
    lemma_sum_bounds(w);
    let a = Seq::new(count_of(w, Ternary::Neg), |j: int| Ternary::Neg);
    let b = Seq::new(count_of(w, Ternary::Zero), |j: int| Ternary::Zero);
    let c = Seq::new(count_of(w, Ternary::Pos), |j: int| Ternary::Pos);
    let sw = sorted_window(w);
    assert(sw == a + b + c);
    let na = a.len() as int;
    let nb = b.len() as int;
    assert forall|i: int, j: int|
        0 <= i <= j < w.len() implies (#[trigger] sw[i]).int_value() <= (#[trigger] sw[j]).int_value() by {
        if i < na {
            assert(sw[i] == Ternary::Neg);
        } else if i < na + nb {
            assert(sw[i] == Ternary::Zero);
            assert(sw[j] != Ternary::Neg);
        } else {
            assert(sw[i] == Ternary::Pos);
            assert(sw[j] == Ternary::Pos);
        }
    }
    lemma_count_constant(a, Ternary::Neg);
    lemma_count_constant(b, Ternary::Zero);
    lemma_count_constant(c, Ternary::Pos);
    assert forall|t: Ternary| count_of(#[trigger] sorted_window(w), t) == count_of(w, t) by {
        lemma_count_concat(a, b, t);
        lemma_count_concat(a + b, c, t);
    }
}

/// The window around a position of the signal always holds that position.
pub proof fn lemma_window_holds_centre(s: Seq<Ternary>, i: int, half: int)
    requires
        0 <= i < s.len(),
        half >= 0,
    ensures
        window(s, i, half).len() > 0,
        window(s, i, half)[i - window_start(i, half)] == s[i],
        forall|j: int|
            0 <= j < window(s, i, half).len() ==> #[trigger] window(s, i, half)[j] == s[j
                + window_start(i, half)],
{
}

/// Neither filter invents a state: every output element occurs in the window
/// it was computed from.
pub proof fn lemma_filters_pick_from_window(s: Seq<Ternary>, window_size: nat, i: int)
    requires
        valid_window(window_size),
        0 <= i < s.len(),
    ensures
        count_of(window(s, i, window_size as int / 2), majority_filtered(s, window_size)[i]) > 0,
        count_of(window(s, i, window_size as int / 2), median_filtered(s, window_size)[i]) > 0,
{
    let w = window(s, i, window_size as int / 2);
    lemma_window_holds_centre(s, i, window_size as int / 2);
    lemma_sum_bounds(w);
    lemma_median_by_counts(w);
}

/// A constant signal passes through both filters unchanged.
pub proof fn lemma_constant_signal_is_fixed(s: Seq<Ternary>, t: Ternary, window_size: nat)
    requires
        valid_window(window_size),
        forall|j: int| 0 <= j < s.len() ==> s[j] == t,
    ensures
        majority_filtered(s, window_size) == s,
        median_filtered(s, window_size) == s,
{
    let half = window_size as int / 2;
    assert forall|i: int| 0 <= i < s.len() implies majority_vote(#[trigger] window(s, i, half))
        == s[i] && median_of(window(s, i, half)) == s[i] by {
        let w = window(s, i, half);
        lemma_window_holds_centre(s, i, half);
        lemma_count_constant(w, t);
        lemma_median_by_counts(w);
    }
    assert(majority_filtered(s, window_size) =~= s);
    assert(median_filtered(s, window_size) =~= s);
}

/// A window of size one leaves every signal unchanged under both filters.
pub proof fn lemma_unit_window_is_identity(s: Seq<Ternary>)
    ensures
        majority_filtered(s, 1) == s,
        median_filtered(s, 1) == s,
{
    assert forall|i: int| 0 <= i < s.len() implies majority_vote(#[trigger] window(s, i, 0))
        == s[i] && median_of(window(s, i, 0)) == s[i] by {
        let w = window(s, i, 0);
        lemma_window_holds_centre(s, i, 0);
        assert(w.len() == 1);
        lemma_count_constant(w, s[i]);
        lemma_median_by_counts(w);
    }
    assert(majority_filtered(s, 1) =~= s);
    assert(median_filtered(s, 1) =~= s);
}

/// Running `a` passes and then `b` more is the same as running `a + b`
/// passes of the majority filter; zero passes leave the signal unchanged.
pub proof fn lemma_passes_compose(s: Seq<Ternary>, window_size: nat, a: nat, b: nat)
    ensures
        majority_passes(s, window_size, 0) == s,
        majority_passes(majority_passes(s, window_size, a), window_size, b) == majority_passes(
            s,
            window_size,
            a + b,
        ),
    decreases a,
{
    if a > 0 {
        lemma_passes_compose(majority_filtered(s, window_size), window_size, (a - 1) as nat, b);
        assert((a - 1) as nat + b == (a + b - 1) as nat);
    }
}

/// The majority filter picks, for every position, a most frequent state of
/// the window around it. Among equally frequent states `Pos` is preferred,
/// then `Neg`; `Zero` is chosen only when it is strictly more frequent than
/// both others.
pub proof fn lemma_majority_is_most_frequent(s: Seq<Ternary>, window_size: nat, i: int)
    requires
        valid_window(window_size),
        0 <= i < s.len(),
    ensures
        ({
            let w = window(s, i, window_size as int / 2);
            let out = majority_filtered(s, window_size)[i];
            &&& forall|t: Ternary| count_of(w, out) >= #[trigger] count_of(w, t)
            &&& (count_of(w, Ternary::Pos) >= count_of(w, Ternary::Neg) && count_of(
                w,
                Ternary::Pos,
            ) >= count_of(w, Ternary::Zero)) ==> out == Ternary::Pos
            &&& out == Ternary::Neg ==> count_of(w, Ternary::Neg) > count_of(w, Ternary::Pos)
            &&& out == Ternary::Zero ==> count_of(w, Ternary::Zero) > count_of(w, Ternary::Pos)
                && count_of(w, Ternary::Zero) > count_of(w, Ternary::Neg)
        }),
{
    let w = window(s, i, window_size as int / 2);
    let out = majority_filtered(s, window_size)[i];
    assert forall|t: Ternary| count_of(w, out) >= #[trigger] count_of(w, t) by {
        match t {
            Ternary::Neg => {},
            Ternary::Zero => {},
            Ternary::Pos => {},
        }
    }
}

/// The median filter picks, for every position, the middle element (index
/// `len / 2`) of its window sorted ascending: it is `Neg` exactly when more
/// than `len / 2` elements of the window are `Neg`, `Pos` exactly when at
/// most `len / 2` elements are below `Pos`, and `Zero` otherwise. Equally:
/// at most `len / 2` elements lie strictly below it and more than `len / 2`
/// lie at or below it.
pub proof fn lemma_median_is_middle(s: Seq<Ternary>, window_size: nat, i: int)
    requires
        valid_window(window_size),
        0 <= i < s.len(),
    ensures
        ({
            let w = window(s, i, window_size as int / 2);
            let k = w.len() / 2;
            let out = median_filtered(s, window_size)[i];
            let neg = count_of(w, Ternary::Neg);
            let zero = count_of(w, Ternary::Zero);
            &&& (out == Ternary::Neg <==> neg > k)
            &&& (out == Ternary::Pos <==> neg + zero <= k)
            &&& (out == Ternary::Zero <==> neg <= k < neg + zero)
            &&& (out == Ternary::Neg ==> k < neg)
            &&& (out == Ternary::Zero ==> neg <= k < neg + zero)
            &&& (out == Ternary::Pos ==> neg + zero <= k < w.len())
            &&& out == sorted_window(w)[k as int]
        }),
{
    let w = window(s, i, window_size as int / 2);
    lemma_window_holds_centre(s, i, window_size as int / 2);
    lemma_sum_bounds(w);
    lemma_median_by_counts(w);
}

} // verus!
