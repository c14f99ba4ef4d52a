//! Audible waveform generators.

pub mod mixed;
pub mod sine;
pub mod square;

pub use mixed::MixedOscillator;
pub use sine::SineOscillator;
pub use square::SquareOscillator;
