use ternary_noise::{ConservationState, Ternary};

#[test]
fn conservation_state_counts() {
    let vals = vec![Ternary::Pos, Ternary::Neg, Ternary::Zero, Ternary::Pos];
    let state = ConservationState::from_slice(&vals);
    assert_eq!(state.counts, (1, 1, 2));
    assert_eq!(state.sum, 1);
    assert_eq!(state.energy, 3);
}

#[test]
fn conservation_state_of_empty() {
    let state = ConservationState::from_slice(&[]);
    assert_eq!(state.counts, (0, 0, 0));
    assert_eq!(state.sum, 0);
    assert_eq!(state.energy, 0);
}

#[test]
fn conservation_state_fields_agree() {
    let mut vals = Vec::new();
    for i in 0..60 {
        match i % 3 {
            0 => vals.push(Ternary::Neg),
            1 => vals.push(Ternary::Zero),
            _ => vals.push(Ternary::Pos),
        }
    }
    vals.push(Ternary::Neg);
    let state = ConservationState::from_slice(&vals);
    let (neg, zero, pos) = state.counts;
    assert_eq!((neg, zero, pos), (21, 20, 20));
    assert_eq!(neg + zero + pos, vals.len());
    assert_eq!(state.sum, pos as i64 - neg as i64);
    assert_eq!(state.energy, pos as i64 + neg as i64);
    assert_eq!(state.sum, -1);
    assert_eq!(state.energy, 41);
}
