//! Discrete core of a periodic N-body orbit compression pipeline.
//!
//! An orbit is simulated over one period, each body's path is decomposed
//! into rotating sinusoids, and the series is truncated by amplitude.
//! The numerically delicate floating-point stages (integration, the
//! transform itself, resynthesis) live outside this library; what is
//! verified here is the discrete structure they all rely on: trajectory
//! transposition, the frequency-bin-to-signed-frequency mapping, the
//! truncation policy, the frame alignment used to close an orbit, and
//! the validation of orbit configurations.

pub mod config;
pub mod spectrum;
pub mod trajectory;
