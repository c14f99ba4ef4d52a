//! The monophonic voice: one oscillator pair, one swept filter, one LFO and
//! one gain stage, wired into a fixed per-sample pipeline.

use crate::fixed::{clamp_i64, div_trunc, iclamp, lemma_tdiv_mag, tdiv, MAX_SAMPLE_RATE_HZ, UNIT};
use crate::modulators::{ModulationOscillator, ModulationShape};
use crate::oscillators::MixedOscillator;
use crate::processors::filter::{
    modulated, step_output, stepped, BiquadFilter, MIN_CUTOFF_MHZ, MIN_FILTER_SAMPLE_RATE_HZ,
};
use crate::processors::vca::{vca_output, VCA};
use crate::traits::{Modulatable, Oscillator};
use vstd::prelude::*;

verus! {

/// A complete subtractive-synthesis voice. Each call to `process_sample`
/// pulls one sample from the crossfaded oscillator pair, sweeps the filter's
/// cutoff with a quarter-scaled LFO sample, filters the oscillator sample,
/// halves it for headroom and runs it through the gain stage.
pub struct Voice {
    /// The audible oscillator pair.
    pub oscillator: MixedOscillator,
    /// The resonant low-pass filter.
    pub filter: BiquadFilter,
    /// The low-frequency oscillator sweeping the filter cutoff.
    pub filter_lfo: ModulationOscillator,
    /// The output gain stage.
    pub vca: VCA,
    /// Sample rate in hertz, shared by every component.
    pub sample_rate_hz: u64,
}

impl Voice {
    /// Structural invariant: every component is well formed, shares the
    /// voice's sample rate, and the gain stage keeps its fixed construction
    /// settings (base gain one half, modulation amount 0.8, unity
    /// multiplier — the voice never modulates it).
    pub open spec fn wf(&self) -> bool {
        &&& MIN_FILTER_SAMPLE_RATE_HZ <= self.sample_rate_hz <= MAX_SAMPLE_RATE_HZ
        &&& self.oscillator.wf()
        &&& self.filter.wf()
        &&& self.filter_lfo.wf()
        &&& self.vca.wf()
        &&& self.oscillator.sine.sample_rate_hz == self.sample_rate_hz
        &&& self.filter.sample_rate_hz == self.sample_rate_hz
        &&& self.filter_lfo.sample_rate_hz == self.sample_rate_hz
        &&& self.vca.input_gain == 500_000
        &&& self.vca.modulation_amount == 800_000
        &&& self.vca.current_modulation == UNIT
    }

    /// The sample the next call to `process_sample` returns: the oscillator
    /// sample, filtered under the LFO-swept cutoff, halved, then scaled by
    /// the gain stage.
    pub open spec fn output_view(&self) -> int {
        let osc_out = self.oscillator.sample_view();
        let fm = tdiv(self.filter_lfo.sample_view(), 4);
        let f1 = modulated(self.filter, fm);
        let filtered = step_output(f1, osc_out);
        let attenuated = tdiv(filtered, 2);
        vca_output(self.vca.input_gain as int, self.vca.current_modulation as int, attenuated)
    }

    /// The state after one call to `process_sample`: both oscillators
    /// advance one step, the filter carries the swept cutoff and the shifted
    /// history, and the gain stage is untouched.
    pub open spec fn stepped_state(&self) -> Voice {
        let osc_out = self.oscillator.sample_view();
        let fm = tdiv(self.filter_lfo.sample_view(), 4);
        let f1 = modulated(self.filter, fm);
        Voice {
            oscillator: self.oscillator.advanced(),
            filter: stepped(f1, osc_out),
            filter_lfo: self.filter_lfo.advanced(),
            vca: self.vca,
            sample_rate_hz: self.sample_rate_hz,
        }
    }

    /// A voice at its fixed defaults: 440 Hz at mix ratio 0.3, cutoff
    /// 1000 Hz at resonance 0.1, a 0.5 Hz triangle LFO, and the gain stage
    /// at base gain one half.
    pub fn new(sample_rate_hz: u64) -> (r: Self)
        requires
            MIN_FILTER_SAMPLE_RATE_HZ <= sample_rate_hz <= MAX_SAMPLE_RATE_HZ,
        ensures
            r.wf(),
            r.sample_rate_hz == sample_rate_hz,
            r.oscillator.sine.frequency_mhz == 440_000,
            r.oscillator.sine.phase == 0,
            r.oscillator.mix_ratio == 300_000,
            r.filter.cutoff_mhz == 1_000_000,
            r.filter.resonance == 100_000,
            r.filter.x1 == 0 && r.filter.x2 == 0 && r.filter.y1 == 0 && r.filter.y2 == 0,
            r.filter_lfo.frequency_mhz == 500,
            r.filter_lfo.phase == 0,
            r.filter_lfo.shape == ModulationShape::Triangle,
            r.vca.input_gain == 500_000,
            r.vca.modulation_amount == 800_000,
    {
        Voice {
            oscillator: MixedOscillator::new(440_000, sample_rate_hz, 300_000),
            filter: BiquadFilter::new(sample_rate_hz, 1_000_000, 100_000),
            filter_lfo: ModulationOscillator::new(
                500,
                sample_rate_hz,
                ModulationShape::Triangle,
            ),
            vca: VCA::new(500_000, 800_000),
            sample_rate_hz,
        }
    }

    /// Produce one audio sample and advance the whole pipeline. The output
    /// always stays strictly inside ten times full scale.
    pub fn process_sample(&mut self) -> (r: i64)
        requires
            old(self).wf(),
        ensures
            final(self).wf(),
            *final(self) == old(self).stepped_state(),
            r == old(self).output_view(),
            -10 * UNIT < r < 10 * UNIT,
    {
        let audio_sample: i64 = self.oscillator.next_sample();
        let lfo_value: i64 = self.filter_lfo.next_sample();
        let filter_mod: i64 = div_trunc(lfo_value, 4);
        proof {
            lemma_tdiv_mag(lfo_value as int, 4, UNIT as int);
        }
        self.filter.set_modulation(filter_mod);
        let filtered: i64 = self.filter.process(audio_sample);
        let attenuated: i64 = div_trunc(filtered, 2);
        proof {
            lemma_tdiv_mag(filtered as int, 2, 8_000_000);
        }
        let out: i64 = self.vca.process(attenuated);
        proof {
            assert(-4_000_000_000_000 <= attenuated * 500_000 <= 4_000_000_000_000)
                by (nonlinear_arith)
                requires
                    -8_000_000 <= attenuated <= 8_000_000,
            ;
            lemma_tdiv_mag(attenuated as int * 500_000, UNIT as int, 4_000_000);
        }
        out
    }

    /// Retune the oscillator pair, forcing the frequency into
    /// `[20 Hz, 20 kHz]`; both sub-oscillators restart at phase 0.
    pub fn set_frequency(&mut self, frequency_mhz: i64)
        requires
            old(self).wf(),
        ensures
            final(self).wf(),
            final(self).oscillator.sine.frequency_mhz == iclamp(
                frequency_mhz as int,
                20_000,
                20_000_000,
            ),
            final(self).oscillator.sine.phase == 0,
            final(self).oscillator.square.phase == 0,
            final(self).oscillator.mix_ratio == old(self).oscillator.mix_ratio,
            final(self).filter == old(self).filter,
            final(self).filter_lfo == old(self).filter_lfo,
            final(self).vca == old(self).vca,
            final(self).sample_rate_hz == old(self).sample_rate_hz,
    {
        let safe: i64 = clamp_i64(frequency_mhz, 20_000, 20_000_000);
        self.oscillator.set_frequency(safe as u64);
    }

    /// Rebuild the filter around a new corner frequency, forced into
    /// `[20 Hz, sample_rate / 2]`; the resonance is kept and the history is
    /// cleared.
    pub fn set_filter_cutoff(&mut self, cutoff_mhz: i64)
        requires
            old(self).wf(),
        ensures
            final(self).wf(),
            final(self).filter.cutoff_mhz == iclamp(
                cutoff_mhz as int,
                MIN_CUTOFF_MHZ as int,
                500 * old(self).sample_rate_hz,
            ),
            cutoff_mhz > 500 * old(self).sample_rate_hz ==> final(self).filter.cutoff_mhz == 500
                * old(self).sample_rate_hz,
            final(self).filter.resonance == old(self).filter.resonance,
            final(self).filter.x1 == 0 && final(self).filter.x2 == 0 && final(self).filter.y1
                == 0 && final(self).filter.y2 == 0,
            final(self).oscillator == old(self).oscillator,
            final(self).filter_lfo == old(self).filter_lfo,
            final(self).vca == old(self).vca,
            final(self).sample_rate_hz == old(self).sample_rate_hz,
    {
        let sample_rate_hz: u64 = self.sample_rate_hz;
        let half: i64 = 500 * (sample_rate_hz as i64);
        let safe: i64 = clamp_i64(cutoff_mhz, MIN_CUTOFF_MHZ, half);
        let resonance: i64 = self.filter.get_resonance();
        self.filter = BiquadFilter::new(sample_rate_hz, safe, resonance);
    }

    /// Rebuild the filter around a new resonance, forced into `[0.1, 10]`;
    /// the corner frequency is kept and the history is cleared.
    pub fn set_filter_resonance(&mut self, resonance: i64)
        requires
            old(self).wf(),
        ensures
            final(self).wf(),
            final(self).filter.resonance == iclamp(resonance as int, 100_000, 10_000_000),
            final(self).filter.cutoff_mhz == old(self).filter.cutoff_mhz,
            final(self).filter.x1 == 0 && final(self).filter.x2 == 0 && final(self).filter.y1
                == 0 && final(self).filter.y2 == 0,
            final(self).oscillator == old(self).oscillator,
            final(self).filter_lfo == old(self).filter_lfo,
            final(self).vca == old(self).vca,
            final(self).sample_rate_hz == old(self).sample_rate_hz,
    {
        let sample_rate_hz: u64 = self.sample_rate_hz;
        let safe: i64 = clamp_i64(resonance, 100_000, 10_000_000);
        let cutoff: i64 = self.filter.get_cutoff();
        self.filter = BiquadFilter::new(sample_rate_hz, cutoff, safe);
    }

    /// Rebuild the LFO at a new rate, forced into `[0.01 Hz, 20 Hz]`; it
    /// restarts as a triangle at phase 0.
    pub fn set_filter_lfo_rate(&mut self, rate_mhz: i64)
        requires
            old(self).wf(),
        ensures
            final(self).wf(),
            final(self).filter_lfo.frequency_mhz == iclamp(rate_mhz as int, 10, 20_000),
            final(self).filter_lfo.phase == 0,
            final(self).filter_lfo.shape == ModulationShape::Triangle,
            final(self).oscillator == old(self).oscillator,
            final(self).filter == old(self).filter,
            final(self).vca == old(self).vca,
            final(self).sample_rate_hz == old(self).sample_rate_hz,
    {
        let safe: i64 = clamp_i64(rate_mhz, 10, 20_000);
        let sample_rate_hz: u64 = self.sample_rate_hz;
        self.filter_lfo = ModulationOscillator::new(
            safe as u64,
            sample_rate_hz,
            ModulationShape::Triangle,
        );
    }

    /// Change the oscillator crossfade, forcing the ratio into `[0, UNIT]`.
    pub fn set_mix_ratio(&mut self, ratio: i64)
        requires
            old(self).wf(),
        ensures
            final(self).wf(),
            final(self).oscillator.mix_ratio == iclamp(ratio as int, 0, UNIT as int),
            final(self).oscillator.sine == old(self).oscillator.sine,
            final(self).oscillator.square == old(self).oscillator.square,
            final(self).filter == old(self).filter,
            final(self).filter_lfo == old(self).filter_lfo,
            final(self).vca == old(self).vca,
            final(self).sample_rate_hz == old(self).sample_rate_hz,
    {
        let safe: i64 = clamp_i64(ratio, 0, UNIT);
        self.oscillator.set_mix_ratio(safe);
    }
}

} // verus!
