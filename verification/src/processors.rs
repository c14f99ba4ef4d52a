//! Sample processors: the resonant low-pass filter and the gain stage.

pub mod filter;
pub mod vca;

pub use filter::BiquadFilter;
pub use vca::VCA;
