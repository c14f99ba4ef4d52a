//! A monophonic subtractive-synthesis voice in fixed-point arithmetic.
//!
//! One `Voice` owns a crossfaded sine/square oscillator, a resonant low-pass
//! biquad filter swept by a low-frequency oscillator, and a gain stage, and
//! produces one audio sample per call. All signal values are integers in
//! micro-units: `fixed::UNIT` stands for an amplitude (or gain) of one, and
//! frequencies are given in millihertz, so that every step of the per-sample
//! pipeline is exact integer arithmetic with a proved contract.

pub mod fixed;
pub mod modulators;
pub mod oscillators;
pub mod processors;
pub mod traits;
pub mod voice;
