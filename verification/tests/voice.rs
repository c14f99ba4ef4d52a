//! End-to-end behaviour of the complete voice.

use rust_synth::fixed::UNIT;
use rust_synth::voice::Voice;

/// One second of audio from a default voice at 44100 Hz: every sample is
/// produced without a panic and stays strictly inside ten times full scale.
#[test]
fn one_second_bounded() {
    let mut voice = Voice::new(44_100);
    let mut peak: i64 = 0;
    for _ in 0..44_100 {
        let s = voice.process_sample();
        assert!(-10 * UNIT < s && s < 10 * UNIT);
        if s.abs() > peak {
            peak = s.abs();
        }
    }
    assert!(peak > 0, "a sounding voice produces some non-zero sample");
}

/// The defaults of a new voice match its construction contract.
#[test]
fn new_voice_defaults() {
    let voice = Voice::new(44_100);
    assert_eq!(voice.oscillator.sine.frequency_mhz, 440_000);
    assert_eq!(voice.oscillator.mix_ratio, 300_000);
    assert_eq!(voice.filter.get_cutoff(), 1_000_000);
    assert_eq!(voice.filter.get_resonance(), 100_000);
    assert_eq!(voice.filter_lfo.frequency_mhz, 500);
    assert_eq!(voice.vca.input_gain, 500_000);
}

/// A cutoff above half the sample rate clamps to exactly half the sample
/// rate, observable through the filter's accessor.
#[test]
fn cutoff_clamps_to_nyquist() {
    let mut voice = Voice::new(32_000);
    voice.set_filter_cutoff(30_000_000);
    assert_eq!(voice.filter.get_cutoff(), 16_000_000);
    let mut wide = Voice::new(44_100);
    wide.set_filter_cutoff(30_000_000);
    assert_eq!(wide.filter.get_cutoff(), 22_050_000);
    wide.set_filter_cutoff(1_234_567);
    assert_eq!(wide.filter.get_cutoff(), 1_234_567);
    wide.set_filter_cutoff(-50);
    assert_eq!(wide.filter.get_cutoff(), 20_000);
}

/// Mix ratios are clamped into `[0, 1]`: one and a half clamps to one, a
/// negative ratio clamps to zero.
#[test]
fn mix_ratio_setter_clamps() {
    let mut voice = Voice::new(44_100);
    voice.set_mix_ratio(1_500_000);
    assert_eq!(voice.oscillator.mix_ratio, UNIT);
    voice.set_mix_ratio(-1_000_000);
    assert_eq!(voice.oscillator.mix_ratio, 0);
    voice.set_mix_ratio(420_000);
    assert_eq!(voice.oscillator.mix_ratio, 420_000);
}

/// Frequency, resonance and LFO-rate setters clamp into their documented
/// ranges.
#[test]
fn remaining_setters_clamp() {
    let mut voice = Voice::new(44_100);
    voice.set_frequency(5_000);
    assert_eq!(voice.oscillator.sine.frequency_mhz, 20_000);
    voice.set_frequency(99_000_000);
    assert_eq!(voice.oscillator.sine.frequency_mhz, 20_000_000);
    assert_eq!(voice.oscillator.square.frequency_mhz, 20_000_000);
    voice.set_filter_resonance(50_000_000);
    assert_eq!(voice.filter.get_resonance(), 10_000_000);
    voice.set_filter_resonance(1);
    assert_eq!(voice.filter.get_resonance(), 100_000);
    voice.set_filter_lfo_rate(-3);
    assert_eq!(voice.filter_lfo.frequency_mhz, 10);
    voice.set_filter_lfo_rate(1_000_000);
    assert_eq!(voice.filter_lfo.frequency_mhz, 20_000);
}

/// Changing the filter cutoff keeps the resonance, and the other way round,
/// as the rebuild contract promises.
#[test]
fn filter_rebuild_preserves_other_parameter() {
    let mut voice = Voice::new(44_100);
    voice.set_filter_resonance(3_000_000);
    voice.set_filter_cutoff(5_000_000);
    assert_eq!(voice.filter.get_resonance(), 3_000_000);
    assert_eq!(voice.filter.get_cutoff(), 5_000_000);
    voice.set_filter_resonance(200_000);
    assert_eq!(voice.filter.get_cutoff(), 5_000_000);
    assert_eq!(voice.filter.get_resonance(), 200_000);
}

/// The voice keeps producing bounded samples while parameters are swept
/// between buffers, as a control thread would.
#[test]
fn parameter_sweeps_stay_bounded() {
    let mut voice = Voice::new(48_000);
    for step in 0..50 {
        voice.set_frequency(200_000 + step * 37_000);
        voice.set_filter_cutoff(400_000 + step * 90_000);
        voice.set_mix_ratio(step * 20_000);
        voice.set_filter_lfo_rate(10 + step * 400);
        for _ in 0..480 {
            let s = voice.process_sample();
            assert!(-10 * UNIT < s && s < 10 * UNIT);
        }
    }
}
