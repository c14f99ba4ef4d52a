//! Control-signal generators that drive other components' parameters.

pub mod lfo;

pub use lfo::{ModulationOscillator, ModulationShape};
