//! A second-order (biquad) resonant low-pass filter.

use crate::fixed::{
    clamp_i64, cycle_ticks, div_trunc, iclamp, imin, lemma_tdiv_mag, mul_div, sine_value,
    sine_wave, tdiv, MAX_SAMPLE_RATE_HZ, TICKS_PER_HZ, UNIT,
};
use crate::traits::Modulatable;
use vstd::arithmetic::div_mod::lemma_div_pos_is_pos;
use vstd::prelude::*;

verus! {

/// Lowest admissible corner frequency, in millihertz (20 Hz).
pub const MIN_CUTOFF_MHZ: i64 = 20_000;

/// Highest corner frequency the coefficient derivation uses, in millihertz
/// (20 kHz).
pub const MAX_CUTOFF_MHZ: i64 = 20_000_000;

/// Lowest admissible resonance, in micro-units (0.1).
pub const MIN_RESONANCE: i64 = 100_000;

/// Highest admissible resonance, in micro-units (20).
pub const MAX_RESONANCE: i64 = 20_000_000;

/// Lowest sample rate the filter supports, in hertz. Below it the modulation
/// sweep's 4 kHz top corner would pass the Nyquist frequency.
pub const MIN_FILTER_SAMPLE_RATE_HZ: u64 = 8_000;

/// The filter's saturation band, in micro-units (24 dB above full scale). A
/// computed sample outside this band counts as blown up — the fixed-point
/// counterpart of a non-finite float — and triggers the self-healing bypass.
pub const SATURATION: i64 = 16_000_000;

/// Largest magnitude a history cell may hold.
pub const HISTORY_LIMIT: i64 = 2_000_000_000;

/// The corner frequency the coefficient derivation works from: the stored
/// cutoff forced into `[20 Hz, min(sample_rate / 2, 20 kHz)]`.
pub open spec fn corner_frequency(sample_rate_hz: int, cutoff_mhz: int) -> int {
    iclamp(cutoff_mhz, MIN_CUTOFF_MHZ as int, imin(500 * sample_rate_hz, MAX_CUTOFF_MHZ as int))
}

/// The normalized low-pass coefficients `(a0, a1, a2, b1, b2)` for the given
/// sample rate, cutoff and resonance, derived in fixed point from the
/// standard resonant low-pass biquad design: with `w` the cutoff as a
/// fraction of the sample rate, `cos w` and `sin w` come from the shared
/// sine-like waveform, `alpha = sin w / (2 * resonance)`, and the raw
/// coefficients `(1 - cos w) / 2`, `1 - cos w`, `-2 cos w`, `1 - alpha` are
/// divided by `1 + alpha`.
pub open spec fn coefficients(sample_rate_hz: int, cutoff_mhz: int, resonance: int) -> (
    int,
    int,
    int,
    int,
    int,
) {
    let d = cycle_ticks(sample_rate_hz);
    let fc = corner_frequency(sample_rate_hz, cutoff_mhz);
    let sinw = sine_wave(fc, d);
    let cosw = sine_wave(fc + d / 4, d);
    let alpha = tdiv(sinw * UNIT, 2 * resonance);
    let b0 = tdiv(UNIT - cosw, 2);
    let a0den = UNIT + alpha;
    (
        tdiv(b0 * UNIT, a0den),
        tdiv((UNIT - cosw) * UNIT, a0den),
        tdiv(b0 * UNIT, a0den),
        tdiv(2 * cosw * UNIT, a0den),
        tdiv((alpha - UNIT) * UNIT, a0den),
    )
}

/// The cutoff a modulation value maps to: `[-UNIT, UNIT]` sweeps linearly
/// over `[400 Hz, 4000 Hz]`.
pub open spec fn modulated_cutoff(value: int) -> int {
    400_000 + tdiv(tdiv(value + UNIT, 2) * 3_600_000, UNIT as int)
}

/// A second-order IIR low-pass filter with resonance: each output sample is
/// a weighted sum of the input, the two previous inputs and the two previous
/// outputs, with weights derived from the cutoff and resonance.
pub struct BiquadFilter {
    /// Sample rate in hertz, fixed at construction.
    pub sample_rate_hz: u64,
    /// Corner frequency in millihertz, kept in `[20 Hz, sample_rate / 2]`.
    pub cutoff_mhz: i64,
    /// Resonance in micro-units, kept in `[MIN_RESONANCE, MAX_RESONANCE]`.
    pub resonance: i64,
    /// Input weight, always consistent with cutoff and resonance.
    pub a0: i64,
    /// Weight of the previous input.
    pub a1: i64,
    /// Weight of the input before the previous one.
    pub a2: i64,
    /// Weight of the previous output (subtracted).
    pub b1: i64,
    /// Weight of the output before the previous one (subtracted).
    pub b2: i64,
    /// The previous input sample.
    pub x1: i64,
    /// The input sample before the previous one.
    pub x2: i64,
    /// The previous output sample.
    pub y1: i64,
    /// The output sample before the previous one.
    pub y2: i64,
}

/// The weighted sum a call to `process` computes before the saturation
/// check, scaled back to micro-units.
pub open spec fn raw_output(f: BiquadFilter, x: int) -> int {
    tdiv(f.a0 * x + f.a1 * f.x1 + f.a2 * f.x2 - f.b1 * f.y1 - f.b2 * f.y2, UNIT as int)
}

/// The filter state after processing `x`: the history shifts when the
/// computed sample stays in the saturation band, and is zeroed when it does
/// not.
pub open spec fn stepped(f: BiquadFilter, x: int) -> BiquadFilter {
    let y = raw_output(f, x);
    if -SATURATION <= y <= SATURATION {
        BiquadFilter { x1: x as i64, x2: f.x1, y1: y as i64, y2: f.y1, ..f }
    } else {
        BiquadFilter { x1: 0, x2: 0, y1: 0, y2: 0, ..f }
    }
}

/// The sample `process` returns for input `x`: the computed sample when it
/// stays in the saturation band, the unfiltered input when it does not.
pub open spec fn step_output(f: BiquadFilter, x: int) -> int {
    let y = raw_output(f, x);
    if -SATURATION <= y <= SATURATION {
        y
    } else {
        x
    }
}

/// The filter state after a modulation value swept the cutoff: the new
/// corner with coefficients rederived for it, everything else unchanged.
pub open spec fn modulated(f: BiquadFilter, value: int) -> BiquadFilter {
    let c = modulated_cutoff(value);
    let co = coefficients(f.sample_rate_hz as int, c, f.resonance as int);
    BiquadFilter {
        cutoff_mhz: c as i64,
        a0: co.0 as i64,
        a1: co.1 as i64,
        a2: co.2 as i64,
        b1: co.3 as i64,
        b2: co.4 as i64,
        ..f
    }
}

impl BiquadFilter {
    /// A filter with zeroed history; the cutoff is forced into
    /// `[20 Hz, sample_rate / 2]` and the resonance into
    /// `[MIN_RESONANCE, MAX_RESONANCE]`.
    pub fn new(sample_rate_hz: u64, cutoff_mhz: i64, resonance: i64) -> (r: Self)
        requires
            MIN_FILTER_SAMPLE_RATE_HZ <= sample_rate_hz <= MAX_SAMPLE_RATE_HZ,
        ensures
            r.wf(),
            r.sample_rate_hz == sample_rate_hz,
            r.cutoff_mhz == iclamp(
                cutoff_mhz as int,
                MIN_CUTOFF_MHZ as int,
                500 * sample_rate_hz,
            ),
            r.resonance == iclamp(resonance as int, MIN_RESONANCE as int, MAX_RESONANCE as int),
            r.x1 == 0 && r.x2 == 0 && r.y1 == 0 && r.y2 == 0,
    {
        let half: i64 = 500 * (sample_rate_hz as i64);
        let mut filter = BiquadFilter {
            sample_rate_hz,
            cutoff_mhz: clamp_i64(cutoff_mhz, MIN_CUTOFF_MHZ, half),
            resonance: clamp_i64(resonance, MIN_RESONANCE, MAX_RESONANCE),
            a0: 0,
            a1: 0,
            a2: 0,
            b1: 0,
            b2: 0,
            x1: 0,
            x2: 0,
            y1: 0,
            y2: 0,
        };
        filter.update_coefficients();
        filter
    }

    /// Rederive the five weights from the current cutoff and resonance.
    fn update_coefficients(&mut self)
        requires
            MIN_FILTER_SAMPLE_RATE_HZ <= old(self).sample_rate_hz <= MAX_SAMPLE_RATE_HZ,
            MIN_CUTOFF_MHZ <= old(self).cutoff_mhz <= 500 * old(self).sample_rate_hz,
            MIN_RESONANCE <= old(self).resonance <= MAX_RESONANCE,
        ensures
            final(self).sample_rate_hz == old(self).sample_rate_hz,
            final(self).cutoff_mhz == old(self).cutoff_mhz,
            final(self).resonance == old(self).resonance,
            final(self).x1 == old(self).x1,
            final(self).x2 == old(self).x2,
            final(self).y1 == old(self).y1,
            final(self).y2 == old(self).y2,
            ({
                let co = coefficients(
                    old(self).sample_rate_hz as int,
                    old(self).cutoff_mhz as int,
                    old(self).resonance as int,
                );
                final(self).a0 == co.0 && final(self).a1 == co.1 && final(self).a2 == co.2
                    && final(self).b1 == co.3 && final(self).b2 == co.4
            }),
            0 <= final(self).a0 <= UNIT,
            0 <= final(self).a1 <= 2 * UNIT,
            0 <= final(self).a2 <= UNIT,
            -2 * UNIT <= final(self).b1 <= 2 * UNIT,
            -UNIT <= final(self).b2 <= UNIT,
    {
        let d: u64 = TICKS_PER_HZ * self.sample_rate_hz;
        let half: i64 = 500 * (self.sample_rate_hz as i64);
        let cap: i64 = if half < MAX_CUTOFF_MHZ {
            half
        } else {
            MAX_CUTOFF_MHZ
        };
        let fc: i64 = clamp_i64(self.cutoff_mhz, MIN_CUTOFF_MHZ, cap);
        let sinw: i64 = sine_value(fc as u64, d);
        let cosw: i64 = sine_value(fc as u64 + d / 4, d);
        let alpha: i64 = mul_div(sinw, UNIT, 2 * self.resonance);
        proof {
            assert(0 <= sinw * UNIT <= 5 * UNIT * (2 * self.resonance)) by (nonlinear_arith)
                requires
                    0 <= sinw <= 1_000_000 && 100_000 <= self.resonance && UNIT == 1_000_000,
            ;
            lemma_tdiv_mag(sinw as int * UNIT as int, 2 * self.resonance as int, 5 * UNIT as int);
            lemma_div_pos_is_pos(sinw as int * UNIT as int, 2 * self.resonance as int);
        }
        let b0: i64 = div_trunc(UNIT - cosw, 2);
        proof {
            lemma_tdiv_mag((UNIT - cosw) as int, 2, UNIT as int);
            lemma_div_pos_is_pos((UNIT - cosw) as int, 2);
        }
        let a0den: i64 = UNIT + alpha;
        proof {
            assert(0 <= b0 * UNIT <= UNIT * a0den) by (nonlinear_arith)
                requires
                    0 <= b0 <= UNIT && UNIT <= a0den,
            ;
            lemma_tdiv_mag(b0 as int * UNIT as int, a0den as int, UNIT as int);
            lemma_div_pos_is_pos(b0 as int * UNIT as int, a0den as int);
        }
        let na0: i64 = mul_div(b0, UNIT, a0den);
        proof {
            assert(0 <= (UNIT - cosw) * UNIT <= 2 * UNIT * a0den) by (nonlinear_arith)
                requires
                    0 <= UNIT - cosw <= 2 * UNIT && UNIT <= a0den,
            ;
            lemma_tdiv_mag((UNIT - cosw) as int * UNIT as int, a0den as int, 2 * UNIT as int);
            lemma_div_pos_is_pos((UNIT - cosw) as int * UNIT as int, a0den as int);
        }
        let na1: i64 = mul_div(UNIT - cosw, UNIT, a0den);
        let na2: i64 = mul_div(b0, UNIT, a0den);
        proof {
            assert(-(2 * UNIT * a0den) <= 2 * cosw * UNIT <= 2 * UNIT * a0den)
                by (nonlinear_arith)
                requires
                    -UNIT <= cosw <= UNIT && UNIT <= a0den && UNIT == 1_000_000,
            ;
            lemma_tdiv_mag(2 * cosw as int * UNIT as int, a0den as int, 2 * UNIT as int);
        }
        let nb1: i64 = mul_div(2 * cosw, UNIT, a0den);
        proof {
            assert(-(UNIT * a0den) <= (alpha - UNIT) * UNIT <= UNIT * a0den) by (nonlinear_arith)
                requires
                    0 <= alpha && a0den == UNIT + alpha && UNIT == 1_000_000,
            ;
            lemma_tdiv_mag((alpha - UNIT) as int * UNIT as int, a0den as int, UNIT as int);
        }
        let nb2: i64 = mul_div(alpha - UNIT, UNIT, a0den);
        self.a0 = na0;
        self.a1 = na1;
        self.a2 = na2;
        self.b1 = nb1;
        self.b2 = nb2;
    }

    /// Filter one input sample. The computed sample is a weighted sum of the
    /// input and the four history cells; if it stays inside the saturation
    /// band it is returned and the history shifts, and otherwise — the
    /// fixed-point counterpart of a non-finite float — the history is zeroed
    /// and the input passes through unfiltered, untouched by the bad value.
    pub fn process(&mut self, input: i64) -> (r: i64)
        requires
            old(self).wf(),
            -SATURATION <= input <= SATURATION,
        ensures
            final(self).wf(),
            *final(self) == stepped(*old(self), input as int),
            r == step_output(*old(self), input as int),
            -SATURATION <= r <= SATURATION,
    {
        proof {
            assert(-16_000_000_000_000 <= self.a0 * input <= 16_000_000_000_000)
                by (nonlinear_arith)
                requires
                    0 <= self.a0 <= 1_000_000 && -16_000_000 <= input <= 16_000_000,
            ;
            assert(-4_000_000_000_000_000 <= self.a1 * self.x1 <= 4_000_000_000_000_000)
                by (nonlinear_arith)
                requires
                    0 <= self.a1 <= 2_000_000 && -2_000_000_000 <= self.x1 <= 2_000_000_000,
            ;
            assert(-2_000_000_000_000_000 <= self.a2 * self.x2 <= 2_000_000_000_000_000)
                by (nonlinear_arith)
                requires
                    0 <= self.a2 <= 1_000_000 && -2_000_000_000 <= self.x2 <= 2_000_000_000,
            ;
            assert(-4_000_000_000_000_000 <= self.b1 * self.y1 <= 4_000_000_000_000_000)
                by (nonlinear_arith)
                requires
                    -2_000_000 <= self.b1 <= 2_000_000 && -2_000_000_000 <= self.y1
                        <= 2_000_000_000,
            ;
            assert(-2_000_000_000_000_000 <= self.b2 * self.y2 <= 2_000_000_000_000_000)
                by (nonlinear_arith)
                requires
                    -1_000_000 <= self.b2 <= 1_000_000 && -2_000_000_000 <= self.y2
                        <= 2_000_000_000,
            ;
        }
        let acc: i64 = self.a0 * input + self.a1 * self.x1 + self.a2 * self.x2
            - self.b1 * self.y1 - self.b2 * self.y2;
        let y: i64 = div_trunc(acc, UNIT);
        if y < -SATURATION || SATURATION < y {
            self.x1 = 0;
            self.x2 = 0;
            self.y1 = 0;
            self.y2 = 0;
            input
        } else {
            self.x2 = self.x1;
            self.x1 = input;
            self.y2 = self.y1;
            self.y1 = y;
            y
        }
    }

    /// The stored corner frequency, in millihertz.
    pub fn get_cutoff(&self) -> (r: i64)
        ensures
            r == self.cutoff_mhz,
    {
        self.cutoff_mhz
    }

    /// The stored resonance, in micro-units.
    pub fn get_resonance(&self) -> (r: i64)
        ensures
            r == self.resonance,
    {
        self.resonance
    }
}

impl Modulatable for BiquadFilter {
    /// Parameters in range, weights consistent with them and bounded, and
    /// history within the representable band.
    open spec fn wf(&self) -> bool {
        &&& MIN_FILTER_SAMPLE_RATE_HZ <= self.sample_rate_hz <= MAX_SAMPLE_RATE_HZ
        &&& MIN_CUTOFF_MHZ <= self.cutoff_mhz <= 500 * self.sample_rate_hz
        &&& MIN_RESONANCE <= self.resonance <= MAX_RESONANCE
        &&& self.a0 == coefficients(
            self.sample_rate_hz as int,
            self.cutoff_mhz as int,
            self.resonance as int,
        ).0
        &&& self.a1 == coefficients(
            self.sample_rate_hz as int,
            self.cutoff_mhz as int,
            self.resonance as int,
        ).1
        &&& self.a2 == coefficients(
            self.sample_rate_hz as int,
            self.cutoff_mhz as int,
            self.resonance as int,
        ).2
        &&& self.b1 == coefficients(
            self.sample_rate_hz as int,
            self.cutoff_mhz as int,
            self.resonance as int,
        ).3
        &&& self.b2 == coefficients(
            self.sample_rate_hz as int,
            self.cutoff_mhz as int,
            self.resonance as int,
        ).4
        &&& 0 <= self.a0 <= UNIT
        &&& 0 <= self.a1 <= 2 * UNIT
        &&& 0 <= self.a2 <= UNIT
        &&& -2 * UNIT <= self.b1 <= 2 * UNIT
        &&& -UNIT <= self.b2 <= UNIT
        &&& -HISTORY_LIMIT <= self.x1 <= HISTORY_LIMIT
        &&& -HISTORY_LIMIT <= self.x2 <= HISTORY_LIMIT
        &&& -HISTORY_LIMIT <= self.y1 <= HISTORY_LIMIT
        &&& -HISTORY_LIMIT <= self.y2 <= HISTORY_LIMIT
    }

    /// Modulation state is the swept corner frequency.
    open spec fn modulation_view(&self) -> int {
        self.cutoff_mhz as int
    }

    /// Sweep the cutoff: the control value maps linearly onto
    /// `[400 Hz, 4000 Hz]` and the weights are rederived at once, so they
    /// never disagree with the stored corner. The history is untouched.
    fn set_modulation(&mut self, value: i64)
        ensures
            *final(self) == modulated(*old(self), value as int),
            400_000 <= final(self).cutoff_mhz <= 4_000_000,
    {
        let normalized: i64 = div_trunc(value + UNIT, 2);
        proof {
            lemma_tdiv_mag((value + UNIT) as int, 2, UNIT as int);
            lemma_div_pos_is_pos((value + UNIT) as int, 2);
            assert(0 <= normalized * 3_600_000 <= 3_600_000 * 1_000_000) by (nonlinear_arith)
                requires
                    0 <= normalized <= 1_000_000,
            ;
            lemma_tdiv_mag(normalized as int * 3_600_000, UNIT as int, 3_600_000);
            lemma_div_pos_is_pos(normalized as int * 3_600_000, UNIT as int);
        }
        let swing: i64 = mul_div(normalized, 3_600_000, UNIT);
        self.cutoff_mhz = 400_000 + swing;
        self.update_coefficients();
    }

    /// The swept corner frequency, in millihertz.
    fn get_modulation(&self) -> (r: i64) {
        self.cutoff_mhz
    }
}

} // verus!
