use ternary_noise::{DenoisingStrategy, Ternary};

#[test]
fn majority_filter_clean_signal() {
    let signal = vec![Ternary::Pos, Ternary::Pos, Ternary::Pos];
    let filtered = DenoisingStrategy::majority_filter(&signal, 3);
    assert_eq!(filtered, signal);
}

#[test]
fn majority_filter_removes_impulse() {
    // Single impulse in constant signal
    let signal = vec![
        Ternary::Pos, Ternary::Pos, Ternary::Neg, Ternary::Pos, Ternary::Pos,
    ];
    let filtered = DenoisingStrategy::majority_filter(&signal, 3);
    assert_eq!(filtered[2], Ternary::Pos);
}

#[test]
fn median_filter_preserves_step() {
    let signal = vec![
        Ternary::Neg, Ternary::Neg, Ternary::Pos, Ternary::Pos, Ternary::Pos,
    ];
    let filtered = DenoisingStrategy::median_filter(&signal, 3);
    // Edges should stay, center should be Pos
    assert_eq!(filtered[0], Ternary::Neg);
    assert_eq!(filtered[4], Ternary::Pos);
}

#[test]
fn majority_filter_empty() {
    let filtered = DenoisingStrategy::majority_filter(&[], 3);
    assert!(filtered.is_empty());
}

#[test]
fn median_filter_empty() {
    let filtered = DenoisingStrategy::median_filter(&[], 3);
    assert!(filtered.is_empty());
}

#[test]
fn multi_pass_reduces_noise() {
    // Noisy signal with scattered impulses
    let mut signal = vec![Ternary::Zero; 20];
    signal[5] = Ternary::Pos;
    signal[10] = Ternary::Neg;
    signal[15] = Ternary::Pos;

    let filtered = DenoisingStrategy::majority_multi_pass(&signal, 3, 2);
    // After multi-pass, most should be Zero
    let zeros = filtered.iter().filter(|&&t| t == Ternary::Zero).count();
    assert!(zeros >= 17, "expected most to be zero, got {}/20", zeros);
}

#[test]
fn majority_ties_prefer_pos_then_neg() {
    // Window [Neg, Zero, Pos]: one of each, Pos wins.
    let signal = vec![Ternary::Neg, Ternary::Zero, Ternary::Pos];
    let filtered = DenoisingStrategy::majority_filter(&signal, 3);
    assert_eq!(filtered, vec![Ternary::Neg, Ternary::Pos, Ternary::Pos]);
    // Window [Zero, Neg]: Neg beats Zero on a tie.
    let signal = vec![Ternary::Zero, Ternary::Neg];
    let filtered = DenoisingStrategy::majority_filter(&signal, 3);
    assert_eq!(filtered, vec![Ternary::Neg, Ternary::Neg]);
}

#[test]
fn median_filter_exact_output() {
    let signal = vec![
        Ternary::Pos, Ternary::Neg, Ternary::Zero, Ternary::Pos, Ternary::Neg,
    ];
    // Windows: [P,N] [P,N,Z] [N,Z,P] [Z,P,N] [P,N]
    let filtered = DenoisingStrategy::median_filter(&signal, 3);
    assert_eq!(
        filtered,
        vec![Ternary::Pos, Ternary::Zero, Ternary::Zero, Ternary::Zero, Ternary::Pos]
    );
}

#[test]
fn wide_window_covers_whole_signal() {
    let signal = vec![Ternary::Neg, Ternary::Neg, Ternary::Pos, Ternary::Zero];
    let filtered = DenoisingStrategy::majority_filter(&signal, 101);
    assert_eq!(filtered, vec![Ternary::Neg; 4]);
    let filtered = DenoisingStrategy::median_filter(&signal, 101);
    assert_eq!(filtered, vec![Ternary::Zero; 4]);
}

#[test]
fn constant_signal_is_fixed() {
    for t in [Ternary::Neg, Ternary::Zero, Ternary::Pos] {
        let signal = vec![t; 7];
        assert_eq!(DenoisingStrategy::majority_filter(&signal, 5), signal);
        assert_eq!(DenoisingStrategy::median_filter(&signal, 5), signal);
    }
}

#[test]
fn unit_window_is_identity() {
    let signal = vec![Ternary::Neg, Ternary::Pos, Ternary::Zero, Ternary::Pos];
    assert_eq!(DenoisingStrategy::majority_filter(&signal, 1), signal);
    assert_eq!(DenoisingStrategy::median_filter(&signal, 1), signal);
}

#[test]
fn filters_pick_from_window() {
    let signal = vec![
        Ternary::Pos, Ternary::Pos, Ternary::Zero, Ternary::Zero, Ternary::Neg, Ternary::Neg,
    ];
    let maj = DenoisingStrategy::majority_filter(&signal, 3);
    let med = DenoisingStrategy::median_filter(&signal, 3);
    for i in 0..signal.len() {
        let start = i.saturating_sub(1);
        let end = (i + 2).min(signal.len());
        assert!(signal[start..end].contains(&maj[i]));
        assert!(signal[start..end].contains(&med[i]));
    }
}

#[test]
fn multi_pass_zero_passes_is_identity() {
    let signal = vec![Ternary::Neg, Ternary::Pos, Ternary::Zero];
    assert_eq!(DenoisingStrategy::majority_multi_pass(&signal, 3, 0), signal);
    // With no passes the window size is never used.
    assert_eq!(DenoisingStrategy::majority_multi_pass(&signal, 2, 0), signal);
}

#[test]
fn multi_pass_composes() {
    let signal = vec![
        Ternary::Pos, Ternary::Neg, Ternary::Zero, Ternary::Pos, Ternary::Neg, Ternary::Neg,
        Ternary::Zero, Ternary::Pos,
    ];
    let two = DenoisingStrategy::majority_multi_pass(&signal, 3, 2);
    let one = DenoisingStrategy::majority_multi_pass(&signal, 3, 1);
    let one_more = DenoisingStrategy::majority_multi_pass(&one, 3, 1);
    assert_eq!(two, one_more);
    assert_eq!(one, DenoisingStrategy::majority_filter(&signal, 3));
}
