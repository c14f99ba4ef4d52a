//! Oscillator and modulation-oscillator behaviour.

use rust_synth::fixed::UNIT;
use rust_synth::modulators::{ModulationOscillator, ModulationShape};
use rust_synth::oscillators::{MixedOscillator, SineOscillator, SquareOscillator};
use rust_synth::traits::Oscillator;

/// A 441 Hz sine at 44100 Hz has an exact period of 100 samples: the second
/// hundred samples repeat the first hundred bit for bit.
#[test]
fn sine_periodicity_one_period() {
    let mut osc = SineOscillator::new(441_000, 44_100);
    let first: Vec<i64> = (0..100).map(|_| osc.next_sample()).collect();
    let second: Vec<i64> = (0..100).map(|_| osc.next_sample()).collect();
    assert_eq!(first, second);
}

/// A sine at an awkward frequency still stays within full scale and starts
/// at zero.
#[test]
fn sine_bounded_and_starts_at_zero() {
    let mut osc = SineOscillator::new(439_731, 48_000);
    let first = osc.next_sample();
    assert_eq!(first, 0);
    for _ in 0..10_000 {
        let s = osc.next_sample();
        assert!(-UNIT <= s && s <= UNIT);
    }
}

/// Square output is always exactly full positive or full negative scale,
/// never anything in between.
#[test]
fn square_is_two_valued() {
    let mut osc = SquareOscillator::new(777_123, 44_100);
    for _ in 0..10_000 {
        let s = osc.next_sample();
        assert!(s == UNIT || s == -UNIT);
    }
}

/// The square starts positive and flips at the half cycle.
#[test]
fn square_half_cycle_flip() {
    // 1000 mHz at 1000 Hz: one cycle spans exactly 1000 samples.
    let mut osc = SquareOscillator::new(1_000, 1_000);
    assert_eq!(osc.get_sample_rate(), 1_000);
    for i in 0..1000 {
        let s = osc.next_sample();
        if i < 500 {
            assert_eq!(s, UNIT, "sample {i}");
        } else {
            assert_eq!(s, -UNIT, "sample {i}");
        }
    }
}

/// At mix ratio 0 the crossfaded pair equals a bare sine oscillator bit for
/// bit.
#[test]
fn mix_ratio_zero_is_pure_sine() {
    let mut mixed = MixedOscillator::new(440_000, 44_100, 0);
    let mut sine = SineOscillator::new(440_000, 44_100);
    for _ in 0..1000 {
        assert_eq!(mixed.next_sample(), sine.next_sample());
    }
}

/// At mix ratio `UNIT` the crossfaded pair equals a bare square oscillator
/// bit for bit.
#[test]
fn mix_ratio_one_is_pure_square() {
    let mut mixed = MixedOscillator::new(440_000, 44_100, UNIT);
    let mut square = SquareOscillator::new(440_000, 44_100);
    for _ in 0..1000 {
        assert_eq!(mixed.next_sample(), square.next_sample());
    }
}

/// The crossfade is exact fixed-point arithmetic: at phase 0 the sine half
/// is 0 and the square half is full scale, so a 0.3 ratio yields exactly
/// 0.3.
#[test]
fn mix_first_sample_exact() {
    let mut mixed = MixedOscillator::new(440_000, 44_100, 300_000);
    assert_eq!(mixed.next_sample(), 300_000);
}

/// The mix ratio is clamped into `[0, UNIT]` at construction and on every
/// change.
#[test]
fn mix_ratio_clamped() {
    let mut mixed = MixedOscillator::new(440_000, 44_100, 2_000_000);
    assert_eq!(mixed.mix_ratio, UNIT);
    mixed.set_mix_ratio(-5);
    assert_eq!(mixed.mix_ratio, 0);
    mixed.set_mix_ratio(123_456);
    assert_eq!(mixed.mix_ratio, 123_456);
}

/// Changing the frequency retunes both halves and resets their phases.
#[test]
fn mix_set_frequency_resets_phase() {
    let mut mixed = MixedOscillator::new(440_000, 44_100, 0);
    for _ in 0..37 {
        mixed.next_sample();
    }
    mixed.set_frequency(880_000);
    assert_eq!(mixed.sine.frequency_mhz, 880_000);
    assert_eq!(mixed.square.frequency_mhz, 880_000);
    assert_eq!(mixed.sine.phase, 0);
    assert_eq!(mixed.square.phase, 0);
}

/// Exact triangle values: at 1 Hz and 1000 Hz one cycle spans 1000 samples;
/// the wave starts at -1, crosses 0 a quarter in and peaks at +1 halfway.
#[test]
fn lfo_triangle_exact_values() {
    let mut lfo = ModulationOscillator::new(1_000, 1_000, ModulationShape::Triangle);
    let samples: Vec<i64> = (0..1000).map(|_| lfo.next_sample()).collect();
    assert_eq!(samples[0], -UNIT);
    assert_eq!(samples[250], 0);
    assert_eq!(samples[500], UNIT);
    assert_eq!(samples[750], 0);
}

/// Exact ramp values: rising from -1 through 0 at the half cycle.
#[test]
fn lfo_ramp_exact_values() {
    let mut lfo = ModulationOscillator::new(1_000, 1_000, ModulationShape::Ramp);
    let samples: Vec<i64> = (0..1000).map(|_| lfo.next_sample()).collect();
    assert_eq!(samples[0], -UNIT);
    assert_eq!(samples[250], -500_000);
    assert_eq!(samples[500], 0);
    assert_eq!(samples[750], 500_000);
}

/// Exact sine LFO values: 0 at phase 0, full scale a quarter cycle in.
#[test]
fn lfo_sine_exact_values() {
    let mut lfo = ModulationOscillator::new(1_000, 1_000, ModulationShape::Sine);
    let samples: Vec<i64> = (0..1000).map(|_| lfo.next_sample()).collect();
    assert_eq!(samples[0], 0);
    assert_eq!(samples[250], UNIT);
    assert_eq!(samples[500], 0);
    assert_eq!(samples[750], -UNIT);
}

/// The softened square may exceed full scale but never twice full scale,
/// and its peak is exactly the doubled rational sigmoid of full scale:
/// 2 * (16 / 21) in micro-units.
#[test]
fn lfo_smooth_square_peak_and_band() {
    let mut lfo = ModulationOscillator::new(1_000, 1_000, ModulationShape::SmoothSquare);
    let samples: Vec<i64> = (0..1000).map(|_| lfo.next_sample()).collect();
    assert_eq!(samples[0], 0);
    assert_eq!(samples[250], 2 * 761_904);
    for (i, s) in samples.iter().enumerate() {
        assert!(-2 * UNIT <= *s && *s <= 2 * UNIT, "sample {i}");
    }
}

/// The fixed-point sine tracks the real sine of the same phase to within a
/// few percent of full scale across a whole cycle.
#[test]
fn sine_close_to_transcendental() {
    let mut osc = SineOscillator::new(1_000, 1_000);
    for i in 0..1000 {
        let s = osc.next_sample();
        let exact = (2.0 * std::f64::consts::PI * (i as f64) / 1000.0).sin();
        let approx = s as f64 / UNIT as f64;
        assert!(
            (approx - exact).abs() < 0.06,
            "phase {i}: fixed {approx} vs real {exact}"
        );
    }
}
