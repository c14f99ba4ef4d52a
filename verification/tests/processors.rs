//! Filter and gain-stage behaviour.

use rust_synth::fixed::UNIT;
use rust_synth::processors::filter::SATURATION;
use rust_synth::processors::{BiquadFilter, VCA};
use rust_synth::traits::Modulatable;

/// A filter driven right at the edge of its range — cutoff just below half
/// the sample rate, minimal resonance — fed a unit impulse keeps every
/// output inside the saturation band for ten thousand samples.
#[test]
fn filter_impulse_stays_in_band() {
    let mut filter = BiquadFilter::new(44_100, 22_049_999, 100_000);
    let first = filter.process(UNIT);
    assert!(-SATURATION <= first && first <= SATURATION);
    for _ in 0..9_999 {
        let y = filter.process(0);
        assert!(-SATURATION <= y && y <= SATURATION);
    }
}

/// A filter at high resonance fed a sustained square-edge input also stays
/// in band.
#[test]
fn filter_resonant_drive_stays_in_band() {
    let mut filter = BiquadFilter::new(44_100, 4_000_000, 10_000_000);
    for i in 0..10_000 {
        let x = if (i / 50) % 2 == 0 { UNIT } else { -UNIT };
        let y = filter.process(x);
        assert!(-SATURATION <= y && y <= SATURATION, "sample {i}");
    }
}

/// Corrupted history — the fixed-point counterpart of a non-finite
/// intermediate — makes the very next call bypass the filter, returning its
/// input untouched, and zeroes the history; afterwards the filter behaves
/// exactly like a freshly built one.
#[test]
fn filter_self_heals_after_corruption() {
    let mut filter = BiquadFilter::new(44_100, 1_000_000, 100_000);
    filter.y1 = 2_000_000_000;
    let bypassed = filter.process(123_456);
    assert_eq!(bypassed, 123_456);
    assert_eq!(filter.x1, 0);
    assert_eq!(filter.x2, 0);
    assert_eq!(filter.y1, 0);
    assert_eq!(filter.y2, 0);
    let mut fresh = BiquadFilter::new(44_100, 1_000_000, 100_000);
    for _ in 0..100 {
        assert_eq!(filter.process(500_000), fresh.process(500_000));
    }
}

/// Construction clamps the cutoff to half the sample rate and the resonance
/// into its admissible band.
#[test]
fn filter_new_clamps_parameters() {
    let filter = BiquadFilter::new(44_100, 99_000_000, 50_000_000);
    assert_eq!(filter.get_cutoff(), 22_050_000);
    assert_eq!(filter.get_resonance(), 20_000_000);
    let low = BiquadFilter::new(44_100, -7, -7);
    assert_eq!(low.get_cutoff(), 20_000);
    assert_eq!(low.get_resonance(), 100_000);
}

/// The modulation sweep maps a control value of 0 to exactly 2200 Hz,
/// full negative scale to 400 Hz and full positive scale to 4000 Hz,
/// readable back through the modulation state.
#[test]
fn filter_modulation_sweep_exact() {
    let mut filter = BiquadFilter::new(44_100, 1_000_000, 100_000);
    filter.set_modulation(0);
    assert_eq!(filter.get_modulation(), 2_200_000);
    filter.set_modulation(-UNIT);
    assert_eq!(filter.get_modulation(), 400_000);
    filter.set_modulation(UNIT);
    assert_eq!(filter.get_modulation(), 4_000_000);
}

/// The first two samples of the impulse response follow the difference
/// equation exactly: with zeroed history the first output is the input
/// weight itself, and the second mixes the stored weights as the equation
/// says.
#[test]
fn filter_impulse_response_exact() {
    let mut filter = BiquadFilter::new(44_100, 1_000_000, 100_000);
    let a0 = filter.a0;
    let a1 = filter.a1;
    let b1 = filter.b1;
    let first = filter.process(UNIT);
    assert_eq!(first, a0);
    let expected = (a1 as i128 * UNIT as i128 - b1 as i128 * a0 as i128) / UNIT as i128;
    let second = filter.process(0);
    assert_eq!(second as i128, expected);
}

/// With modulation amount 0 the gain stage returns the input scaled by the
/// base gain, exactly, whatever control values arrive.
#[test]
fn vca_zero_amount_ignores_modulation() {
    let mut vca = VCA::new(700_000, 0);
    assert_eq!(vca.process(1_000_000), 700_000);
    vca.set_modulation(UNIT);
    assert_eq!(vca.get_modulation(), UNIT);
    assert_eq!(vca.process(1_000_000), 700_000);
    vca.set_modulation(-UNIT);
    assert_eq!(vca.process(-2_000_000), -1_400_000);
    vca.set_modulation(123_456);
    assert_eq!(vca.process(10), 7);
}

/// At full modulation amount the multiplier sweeps `[0.5, 1.5]`: exact
/// values at the extremes and at the centre.
#[test]
fn vca_full_amount_sweep_exact() {
    let mut vca = VCA::new(UNIT, UNIT);
    vca.set_modulation(UNIT);
    assert_eq!(vca.get_modulation(), 1_500_000);
    assert_eq!(vca.process(1_000_000), 1_500_000);
    vca.set_modulation(-UNIT);
    assert_eq!(vca.get_modulation(), 500_000);
    assert_eq!(vca.process(1_000_000), 500_000);
    vca.set_modulation(0);
    assert_eq!(vca.get_modulation(), UNIT);
    assert_eq!(vca.process(1_000_000), 1_000_000);
}

/// The gain stage starts at unity modulation before any control value.
#[test]
fn vca_defaults_to_unity() {
    let mut vca = VCA::new(250_000, 800_000);
    assert_eq!(vca.get_modulation(), UNIT);
    assert_eq!(vca.process(UNIT), 250_000);
}
