use vstd::prelude::*;

verus! {

/// Test how much noise a strategy (represented as a clean ternary signal)
/// can handle before fitness drops below a threshold.
pub struct NoiseToleranceTest;

} // verus!
