//! Noise and conservation analysis for ternary agent systems whose states
//! lie in {-1, 0, +1}.

mod conservation;
mod denoise;
mod noise_model;
mod snr;
mod ternary;
mod tolerance;

pub use conservation::{ConservationBreakpoint, ConservationState};
pub use denoise::DenoisingStrategy;
pub use noise_model::{NoiseModelType, Rng};
pub use snr::SignalToNoise;
pub use ternary::Ternary;
pub use tolerance::NoiseToleranceTest;
