//! A square-wave oscillator.

use crate::fixed::{
    cycle_ticks, wrap_step, MAX_FREQUENCY_MHZ, MAX_SAMPLE_RATE_HZ, TICKS_PER_HZ, UNIT,
};
use crate::traits::Oscillator;
use vstd::arithmetic::div_mod::lemma_mod_division_less_than_divisor;
use vstd::prelude::*;

verus! {

/// A square-voiced oscillator: full positive amplitude through the first half
/// of each cycle, full negative amplitude through the second, with the same
/// phase accumulation as the sine oscillator.
pub struct SquareOscillator {
    /// Frequency in millihertz; equals the phase step per sample in ticks.
    pub frequency_mhz: u64,
    /// Position within the current cycle, in ticks.
    pub phase: u64,
    /// Sample rate in hertz, fixed at construction.
    pub sample_rate_hz: u64,
}

impl SquareOscillator {
    /// A square oscillator starting at phase 0.
    pub fn new(frequency_mhz: u64, sample_rate_hz: u64) -> (r: Self)
        requires
            1 <= frequency_mhz <= MAX_FREQUENCY_MHZ,
            1 <= sample_rate_hz <= MAX_SAMPLE_RATE_HZ,
        ensures
            r.wf(),
            r.frequency_mhz == frequency_mhz,
            r.phase == 0,
            r.sample_rate_hz == sample_rate_hz,
    {
        SquareOscillator { frequency_mhz, phase: 0, sample_rate_hz }
    }

    /// The sample rate this oscillator was built for.
    pub fn get_sample_rate(&self) -> (r: u64)
        ensures
            r == self.sample_rate_hz,
    {
        self.sample_rate_hz
    }
}

impl Oscillator for SquareOscillator {
    open spec fn wf(&self) -> bool {
        &&& 1 <= self.frequency_mhz <= MAX_FREQUENCY_MHZ
        &&& 1 <= self.sample_rate_hz <= MAX_SAMPLE_RATE_HZ
        &&& (self.phase as int) < cycle_ticks(self.sample_rate_hz as int)
    }

    open spec fn sample_view(&self) -> int {
        if 2 * self.phase < cycle_ticks(self.sample_rate_hz as int) {
            UNIT as int
        } else {
            -UNIT as int
        }
    }

    open spec fn advanced(&self) -> Self {
        SquareOscillator {
            frequency_mhz: self.frequency_mhz,
            phase: wrap_step(
                self.phase as int,
                self.frequency_mhz as int,
                cycle_ticks(self.sample_rate_hz as int),
            ) as u64,
            sample_rate_hz: self.sample_rate_hz,
        }
    }

    /// The output is always exactly full positive or full negative amplitude,
    /// never a value in between.
    fn next_sample(&mut self) -> (r: i64)
        ensures
            r == UNIT || r == -UNIT,
    {
        let d: u64 = TICKS_PER_HZ * self.sample_rate_hz;
        let s: i64 = if 2 * self.phase < d {
            UNIT
        } else {
            -UNIT
        };
        self.phase = (self.phase + self.frequency_mhz) % d;
        proof {
            lemma_mod_division_less_than_divisor(
                old(self).phase + old(self).frequency_mhz,
                d as int,
            );
        }
        s
    }
}

} // verus!
