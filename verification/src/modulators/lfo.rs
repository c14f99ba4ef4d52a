//! A low-frequency oscillator with selectable waveform shape.

use crate::fixed::{
    cycle_ticks, div_trunc, lemma_div_scale_lower, lemma_div_scale_upper, lemma_tdiv_mag, mul_div,
    sine_value, sine_wave, tdiv, wrap_step, MAX_FREQUENCY_MHZ, MAX_SAMPLE_RATE_HZ, TICKS_PER_HZ,
    UNIT,
};
use vstd::prelude::*;

verus! {

/// The waveform a modulation oscillator produces.
#[derive(Clone, Copy, PartialEq, Eq, Structural, Debug)]
pub enum ModulationShape {
    /// The sine-like waveform.
    Sine,
    /// Piecewise linear: rising over the first half cycle, falling over the
    /// second.
    Triangle,
    /// A sawtooth rising linearly across the full cycle.
    Ramp,
    /// A softened square: the sine-like waveform pushed through a rational
    /// sigmoid (a Padé approximant of the hyperbolic tangent) and doubled, so
    /// it may exceed `[-UNIT, UNIT]` but never `[-2 * UNIT, 2 * UNIT]`.
    SmoothSquare,
}

/// The triangle waveform at phase `p` of a `d`-tick cycle: from `-UNIT` up to
/// `UNIT` over the first half cycle, back down over the second.
pub open spec fn triangle_wave(p: int, d: int) -> int {
    if 2 * p < d {
        -UNIT + (4 * p * UNIT) / d
    } else {
        3 * UNIT - (4 * p * UNIT) / d
    }
}

/// The sawtooth waveform at phase `p` of a `d`-tick cycle: rising linearly
/// from `-UNIT` toward `UNIT` across the cycle.
pub open spec fn ramp_wave(p: int, d: int) -> int {
    (2 * p * UNIT) / d - UNIT
}

/// The softened-square waveform at phase `p` of a `d`-tick cycle: the
/// sine-like waveform through `x * (15 + x^2) / (15 + 6 * x^2)`, a rational
/// sigmoid, then doubled.
pub open spec fn smooth_square_wave(p: int, d: int) -> int {
    let s = sine_wave(p, d);
    let x2 = (s * s) / (UNIT as int);
    2 * tdiv(s * (15 * UNIT + x2), 15 * UNIT + 6 * x2)
}

/// The waveform of the given shape at phase `p` of a `d`-tick cycle.
pub open spec fn modulation_wave(shape: ModulationShape, p: int, d: int) -> int {
    match shape {
        ModulationShape::Sine => sine_wave(p, d),
        ModulationShape::Triangle => triangle_wave(p, d),
        ModulationShape::Ramp => ramp_wave(p, d),
        ModulationShape::SmoothSquare => smooth_square_wave(p, d),
    }
}

/// A low-frequency oscillator: the same phase accumulation as the audible
/// oscillators, with a choice of waveform shapes. It is sampled to sweep
/// other components' parameters, not for audible output.
pub struct ModulationOscillator {
    /// Frequency in millihertz; equals the phase step per sample in ticks.
    pub frequency_mhz: u64,
    /// Position within the current cycle, in ticks.
    pub phase: u64,
    /// Sample rate in hertz, fixed at construction.
    pub sample_rate_hz: u64,
    /// Which waveform the oscillator produces.
    pub shape: ModulationShape,
}

impl ModulationOscillator {
    /// Structural invariant: frequency, rate and phase are in range.
    pub open spec fn wf(&self) -> bool {
        &&& 1 <= self.frequency_mhz <= MAX_FREQUENCY_MHZ
        &&& 1 <= self.sample_rate_hz <= MAX_SAMPLE_RATE_HZ
        &&& (self.phase as int) < cycle_ticks(self.sample_rate_hz as int)
    }

    /// The value that the next call to `next_sample` returns.
    pub open spec fn sample_view(&self) -> int {
        modulation_wave(self.shape, self.phase as int, cycle_ticks(self.sample_rate_hz as int))
    }

    /// The state after one call to `next_sample`.
    pub open spec fn advanced(&self) -> Self {
        ModulationOscillator {
            frequency_mhz: self.frequency_mhz,
            phase: wrap_step(
                self.phase as int,
                self.frequency_mhz as int,
                cycle_ticks(self.sample_rate_hz as int),
            ) as u64,
            sample_rate_hz: self.sample_rate_hz,
            shape: self.shape,
        }
    }

    /// A modulation oscillator starting at phase 0.
    pub fn new(frequency_mhz: u64, sample_rate_hz: u64, shape: ModulationShape) -> (r: Self)
        requires
            1 <= frequency_mhz <= MAX_FREQUENCY_MHZ,
            1 <= sample_rate_hz <= MAX_SAMPLE_RATE_HZ,
        ensures
            r.wf(),
            r.frequency_mhz == frequency_mhz,
            r.phase == 0,
            r.sample_rate_hz == sample_rate_hz,
            r.shape == shape,
    {
        ModulationOscillator { frequency_mhz, phase: 0, sample_rate_hz, shape }
    }

    /// Produce the control value for the current phase and step the phase.
    /// Every shape stays within `[-2 * UNIT, 2 * UNIT]`; all but the softened
    /// square stay within `[-UNIT, UNIT]`.
    pub fn next_sample(&mut self) -> (r: i64)
        requires
            old(self).wf(),
        ensures
            final(self).wf(),
            *final(self) == old(self).advanced(),
            r == old(self).sample_view(),
            -2 * UNIT <= r <= 2 * UNIT,
            old(self).shape != ModulationShape::SmoothSquare ==> -UNIT <= r <= UNIT,
    {
        let d: u64 = TICKS_PER_HZ * self.sample_rate_hz;
        let unit: u64 = 1_000_000;
        let output: i64 = match self.shape {
            ModulationShape::Sine => sine_value(self.phase, d),
            ModulationShape::Triangle => {
                let q4: u64 = 4 * self.phase * unit / d;
                proof {
                    lemma_div_scale_upper(4 * self.phase as int, d as int, unit as int, 4);
                }
                if 2 * self.phase < d {
                    proof {
                        lemma_div_scale_upper(4 * self.phase as int, d as int, unit as int, 2);
                    }
                    (q4 as i64) - UNIT
                } else {
                    proof {
                        lemma_div_scale_lower(4 * self.phase as int, d as int, unit as int, 2);
                    }
                    3 * UNIT - (q4 as i64)
                }
            },
            ModulationShape::Ramp => {
                let q2: u64 = 2 * self.phase * unit / d;
                proof {
                    lemma_div_scale_upper(2 * self.phase as int, d as int, unit as int, 2);
                }
                (q2 as i64) - UNIT
            },
            ModulationShape::SmoothSquare => {
                let s: i64 = sine_value(self.phase, d);
                proof {
                    assert(0 <= s * s <= 1_000_000_000_000) by (nonlinear_arith)
                        requires
                            -1_000_000 <= s <= 1_000_000,
                    ;
                }
                let ss: i64 = s * s;
                let x2: i64 = div_trunc(ss, UNIT);
                proof {
                    lemma_tdiv_mag(ss as int, UNIT as int, UNIT as int);
                }
                let numerator: i64 = 15 * UNIT + x2;
                let denominator: i64 = 15 * UNIT + 6 * x2;
                proof {
                    assert(-16_000_000_000_000 <= s * numerator
                        <= 16_000_000_000_000) by (nonlinear_arith)
                        requires
                            -1_000_000 <= s <= 1_000_000 && 15_000_000 <= numerator <= 16_000_000,
                    ;
                    assert(-1_000_000 * denominator <= s * numerator
                        <= 1_000_000 * denominator) by (nonlinear_arith)
                        requires
                            -1_000_000 <= s <= 1_000_000 && 0 <= numerator <= denominator,
                    ;
                    lemma_tdiv_mag(s as int * numerator as int, denominator as int, UNIT as int);
                }
                let r0: i64 = mul_div(s, numerator, denominator);
                2 * r0
            },
        };
        self.phase = (self.phase + self.frequency_mhz) % d;
        proof {
            vstd::arithmetic::div_mod::lemma_mod_division_less_than_divisor(
                old(self).phase + old(self).frequency_mhz,
                d as int,
            );
        }
        output
    }
}

} // verus!
