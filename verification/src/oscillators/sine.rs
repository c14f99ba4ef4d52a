//! A sine-like oscillator.

use crate::fixed::{
    cycle_ticks, cyclic_dist, lemma_oscillator_periodicity, sine_value, sine_wave, wrap_step,
    wrap_steps, MAX_FREQUENCY_MHZ, MAX_SAMPLE_RATE_HZ, TICKS_PER_HZ,
};
use crate::traits::Oscillator;
use vstd::arithmetic::div_mod::lemma_mod_division_less_than_divisor;
use vstd::prelude::*;

verus! {

/// A sine-voiced oscillator: phase accumulates by `frequency_mhz` ticks per
/// sample around a cycle of `TICKS_PER_HZ * sample_rate_hz` ticks, and each
/// sample reads the sine-like waveform at the current phase.
pub struct SineOscillator {
    /// Frequency in millihertz; equals the phase step per sample in ticks.
    pub frequency_mhz: u64,
    /// Position within the current cycle, in ticks.
    pub phase: u64,
    /// Sample rate in hertz, fixed at construction.
    pub sample_rate_hz: u64,
}

impl SineOscillator {
    /// A sine oscillator starting at phase 0.
    pub fn new(frequency_mhz: u64, sample_rate_hz: u64) -> (r: Self)
        requires
            1 <= frequency_mhz <= MAX_FREQUENCY_MHZ,
            1 <= sample_rate_hz <= MAX_SAMPLE_RATE_HZ,
        ensures
            r.wf(),
            r.frequency_mhz == frequency_mhz,
            r.phase == 0,
            r.sample_rate_hz == sample_rate_hz,
    {
        SineOscillator { frequency_mhz, phase: 0, sample_rate_hz }
    }
}

impl Oscillator for SineOscillator {
    open spec fn wf(&self) -> bool {
        &&& 1 <= self.frequency_mhz <= MAX_FREQUENCY_MHZ
        &&& 1 <= self.sample_rate_hz <= MAX_SAMPLE_RATE_HZ
        &&& (self.phase as int) < cycle_ticks(self.sample_rate_hz as int)
    }

    open spec fn sample_view(&self) -> int {
        sine_wave(self.phase as int, cycle_ticks(self.sample_rate_hz as int))
    }

    open spec fn advanced(&self) -> Self {
        SineOscillator {
            frequency_mhz: self.frequency_mhz,
            phase: wrap_step(
                self.phase as int,
                self.frequency_mhz as int,
                cycle_ticks(self.sample_rate_hz as int),
            ) as u64,
            sample_rate_hz: self.sample_rate_hz,
        }
    }

    fn next_sample(&mut self) -> (r: i64) {
        let d: u64 = TICKS_PER_HZ * self.sample_rate_hz;
        let s: i64 = sine_value(self.phase, d);
        self.phase = (self.phase + self.frequency_mhz) % d;
        proof {
            lemma_mod_division_less_than_divisor(
                old(self).phase + old(self).frequency_mhz,
                d as int,
            );
        }
        s
    }
}

/// How many successive samples advance the oscillator's phase: the state
/// after `n` calls to `next_sample`.
pub open spec fn advanced_times(osc: SineOscillator, n: nat) -> SineOscillator
    decreases n,
{
    if n == 0 {
        osc
    } else {
        advanced_times(osc, (n - 1) as nat).advanced()
    }
}

proof fn lemma_advanced_times_phase(osc: SineOscillator, n: nat)
    requires
        osc.wf(),
    ensures
        advanced_times(osc, n).frequency_mhz == osc.frequency_mhz,
        advanced_times(osc, n).sample_rate_hz == osc.sample_rate_hz,
        advanced_times(osc, n).phase as int == wrap_steps(
            osc.phase as int,
            osc.frequency_mhz as int,
            cycle_ticks(osc.sample_rate_hz as int),
            n,
        ),
        advanced_times(osc, n).wf(),
    decreases n,
{
    let d = cycle_ticks(osc.sample_rate_hz as int);
    if n > 0 {
        lemma_advanced_times_phase(osc, (n - 1) as nat);
        let prev = advanced_times(osc, (n - 1) as nat);
        lemma_mod_division_less_than_divisor(prev.phase + prev.frequency_mhz, d);
    }
}

/// Periodicity: at a frequency of no more than half the sample rate, running
/// the oscillator for one full period — `sr / f` samples, that is
/// `cycle_ticks / frequency_mhz` — brings its phase back to within one phase
/// step of where it started, measured around the phase circle.
pub proof fn lemma_sine_oscillator_periodicity(osc: SineOscillator)
    requires
        osc.wf(),
        2 * osc.frequency_mhz <= cycle_ticks(osc.sample_rate_hz as int),
    ensures
        ({
            let d = cycle_ticks(osc.sample_rate_hz as int);
            let n = d / (osc.frequency_mhz as int);
            cyclic_dist(
                advanced_times(osc, n as nat).phase as int,
                osc.phase as int,
                d,
            ) < osc.frequency_mhz
        }),
{
    let d = cycle_ticks(osc.sample_rate_hz as int);
    let step = osc.frequency_mhz as int;
    let n = d / step;
    vstd::arithmetic::div_mod::lemma_div_pos_is_pos(d, step);
    lemma_advanced_times_phase(osc, n as nat);
    lemma_oscillator_periodicity(osc.phase as int, step, d);
}

} // verus!
