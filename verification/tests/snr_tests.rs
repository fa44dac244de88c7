use ternary_noise::{SignalToNoise, Ternary};

#[test]
fn mismatch_count_identical() {
    let v = vec![Ternary::Pos, Ternary::Neg, Ternary::Zero];
    assert_eq!(SignalToNoise::mismatch_count(&v, &v), 0);
    assert_eq!(SignalToNoise::squared_error_sum(&v, &v), 0);
}

#[test]
fn mismatch_count_all_wrong() {
    let clean = vec![Ternary::Pos, Ternary::Pos];
    let noisy = vec![Ternary::Neg, Ternary::Neg];
    assert_eq!(SignalToNoise::mismatch_count(&clean, &noisy), 2);
    assert_eq!(SignalToNoise::squared_error_sum(&clean, &noisy), 8);
}

#[test]
fn squared_error_known() {
    let clean = vec![Ternary::Pos, Ternary::Zero, Ternary::Neg, Ternary::Zero];
    let noisy = vec![Ternary::Neg, Ternary::Pos, Ternary::Neg, Ternary::Neg];
    // 4 + 1 + 0 + 1
    assert_eq!(SignalToNoise::squared_error_sum(&clean, &noisy), 6);
    assert_eq!(SignalToNoise::mismatch_count(&clean, &noisy), 3);
}

#[test]
fn counts_use_paired_positions_only() {
    let clean = vec![Ternary::Pos, Ternary::Pos, Ternary::Pos];
    let noisy = vec![Ternary::Neg];
    assert_eq!(SignalToNoise::mismatch_count(&clean, &noisy), 1);
    assert_eq!(SignalToNoise::squared_error_sum(&clean, &noisy), 4);
    assert_eq!(SignalToNoise::mismatch_count(&noisy, &clean), 1);
    assert_eq!(SignalToNoise::mismatch_count(&[], &clean), 0);
}

#[test]
fn squared_error_between_mismatches_and_four_times() {
    let clean = vec![Ternary::Pos, Ternary::Zero, Ternary::Neg, Ternary::Zero, Ternary::Pos];
    let noisy = vec![Ternary::Zero, Ternary::Zero, Ternary::Pos, Ternary::Neg, Ternary::Pos];
    let m = SignalToNoise::mismatch_count(&clean, &noisy) as u64;
    let e = SignalToNoise::squared_error_sum(&clean, &noisy);
    assert_eq!(m, 3);
    assert_eq!(e, 6);
    assert!(m <= e && e <= 4 * m && e <= 4 * clean.len() as u64);
}
