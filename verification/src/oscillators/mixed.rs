//! A crossfading pair of phase-locked sine and square oscillators.

use crate::fixed::{
    div_trunc, iclamp, lemma_tdiv_mag, lemma_tdiv_mul_cancel, tdiv, clamp_i64, MAX_FREQUENCY_MHZ,
    MAX_SAMPLE_RATE_HZ, UNIT,
};
use crate::oscillators::sine::SineOscillator;
use crate::oscillators::square::SquareOscillator;
use crate::traits::Oscillator;
use vstd::prelude::*;

verus! {

/// One sine and one square oscillator sharing a frequency and a phase, with a
/// mix ratio in `[0, UNIT]` crossfading linearly between them: 0 is pure
/// sine, `UNIT` is pure square.
pub struct MixedOscillator {
    /// The sine-voiced half of the pair.
    pub sine: SineOscillator,
    /// The square-voiced half of the pair.
    pub square: SquareOscillator,
    /// Crossfade weight in `[0, UNIT]`.
    pub mix_ratio: i64,
}

/// The crossfade of a sine sample `s` and a square sample `q` at mix ratio
/// `m`: `((UNIT - m) * s + m * q) / UNIT`, rounded toward zero.
pub open spec fn crossfade(m: int, s: int, q: int) -> int {
    tdiv((UNIT - m) * s + m * q, UNIT as int)
}

impl MixedOscillator {
    /// A crossfaded pair at phase 0; the mix ratio is forced into
    /// `[0, UNIT]`.
    pub fn new(frequency_mhz: u64, sample_rate_hz: u64, mix_ratio: i64) -> (r: Self)
        requires
            1 <= frequency_mhz <= MAX_FREQUENCY_MHZ,
            1 <= sample_rate_hz <= MAX_SAMPLE_RATE_HZ,
        ensures
            r.wf(),
            r.sine.frequency_mhz == frequency_mhz,
            r.sine.phase == 0,
            r.sine.sample_rate_hz == sample_rate_hz,
            r.square.frequency_mhz == frequency_mhz,
            r.square.phase == 0,
            r.square.sample_rate_hz == sample_rate_hz,
            r.mix_ratio == iclamp(mix_ratio as int, 0, UNIT as int),
    {
        MixedOscillator {
            sine: SineOscillator::new(frequency_mhz, sample_rate_hz),
            square: SquareOscillator::new(frequency_mhz, sample_rate_hz),
            mix_ratio: clamp_i64(mix_ratio, 0, UNIT),
        }
    }

    /// Retune both halves of the pair, resetting their phases to 0.
    pub fn set_frequency(&mut self, frequency_mhz: u64)
        requires
            old(self).wf(),
            1 <= frequency_mhz <= MAX_FREQUENCY_MHZ,
        ensures
            final(self).wf(),
            final(self).sine.frequency_mhz == frequency_mhz,
            final(self).sine.phase == 0,
            final(self).sine.sample_rate_hz == old(self).sine.sample_rate_hz,
            final(self).square.frequency_mhz == frequency_mhz,
            final(self).square.phase == 0,
            final(self).square.sample_rate_hz == old(self).square.sample_rate_hz,
            final(self).mix_ratio == old(self).mix_ratio,
    {
        let sample_rate_hz = self.sine.sample_rate_hz;
        self.sine = SineOscillator::new(frequency_mhz, sample_rate_hz);
        self.square = SquareOscillator::new(frequency_mhz, sample_rate_hz);
    }

    /// Change the crossfade weight, forcing it into `[0, UNIT]`.
    pub fn set_mix_ratio(&mut self, ratio: i64)
        requires
            old(self).wf(),
        ensures
            final(self).wf(),
            final(self).mix_ratio == iclamp(ratio as int, 0, UNIT as int),
            final(self).sine == old(self).sine,
            final(self).square == old(self).square,
    {
        self.mix_ratio = clamp_i64(ratio, 0, UNIT);
    }
}

impl Oscillator for MixedOscillator {
    open spec fn wf(&self) -> bool {
        &&& self.sine.wf()
        &&& self.square.wf()
        &&& self.sine.frequency_mhz == self.square.frequency_mhz
        &&& self.sine.sample_rate_hz == self.square.sample_rate_hz
        &&& self.sine.phase == self.square.phase
        &&& 0 <= self.mix_ratio <= UNIT
    }

    open spec fn sample_view(&self) -> int {
        crossfade(self.mix_ratio as int, self.sine.sample_view(), self.square.sample_view())
    }

    open spec fn advanced(&self) -> Self {
        MixedOscillator {
            sine: self.sine.advanced(),
            square: self.square.advanced(),
            mix_ratio: self.mix_ratio,
        }
    }

    /// At mix ratio 0 the output equals the sine half's sample exactly; at
    /// mix ratio `UNIT` it equals the square half's sample exactly.
    fn next_sample(&mut self) -> (r: i64)
        ensures
            old(self).mix_ratio == 0 ==> r == old(self).sine.sample_view(),
            old(self).mix_ratio == UNIT ==> r == old(self).square.sample_view(),
    {
        let s: i64 = self.sine.next_sample();
        let q: i64 = self.square.next_sample();
        let m: i64 = self.mix_ratio;
        proof {
            assert(-1_000_000_000_000 <= (UNIT - m) * s <= 1_000_000_000_000) by (nonlinear_arith)
                requires
                    0 <= UNIT - m <= 1_000_000 && -1_000_000 <= s <= 1_000_000,
            ;
            assert(-1_000_000_000_000 <= m * q <= 1_000_000_000_000) by (nonlinear_arith)
                requires
                    0 <= m <= 1_000_000 && -1_000_000 <= q <= 1_000_000,
            ;
        }
        let num: i64 = (UNIT - m) * s + m * q;
        proof {
            assert(-1_000_000 * 1_000_000 <= num <= 1_000_000 * 1_000_000) by (nonlinear_arith)
                requires
                    num == (UNIT - m) * s + m * q && 0 <= m <= 1_000_000 && -1_000_000 <= s
                        <= 1_000_000 && -1_000_000 <= q <= 1_000_000 && UNIT == 1_000_000,
            ;
            lemma_tdiv_mag(num as int, UNIT as int, UNIT as int);
            if m == 0 {
                lemma_tdiv_mul_cancel(s as int, UNIT as int);
                assert(num == s * (UNIT as int)) by (nonlinear_arith)
                    requires
                        num == (UNIT - m) * s + m * q && m == 0,
                ;
            }
            if m == UNIT {
                lemma_tdiv_mul_cancel(q as int, UNIT as int);
                assert(num == q * (UNIT as int)) by (nonlinear_arith)
                    requires
                        num == (UNIT - m) * s + m * q && m == UNIT,
                ;
            }
        }
        div_trunc(num, UNIT)
    }
}

/// The samples of `n` successive calls to a sine oscillator.
pub open spec fn sine_samples(osc: SineOscillator, n: nat) -> Seq<int>
    decreases n,
{
    if n == 0 {
        Seq::empty()
    } else {
        seq![osc.sample_view()] + sine_samples(osc.advanced(), (n - 1) as nat)
    }
}

/// The samples of `n` successive calls to a square oscillator.
pub open spec fn square_samples(osc: SquareOscillator, n: nat) -> Seq<int>
    decreases n,
{
    if n == 0 {
        Seq::empty()
    } else {
        seq![osc.sample_view()] + square_samples(osc.advanced(), (n - 1) as nat)
    }
}

/// The samples of `n` successive calls to a crossfaded pair.
pub open spec fn mixed_samples(osc: MixedOscillator, n: nat) -> Seq<int>
    decreases n,
{
    if n == 0 {
        Seq::empty()
    } else {
        seq![osc.sample_view()] + mixed_samples(osc.advanced(), (n - 1) as nat)
    }
}

/// At mix ratio 0 a crossfaded pair reproduces its sine half exactly, sample
/// for sample, over any run length.
pub proof fn lemma_pure_sine_mix(osc: MixedOscillator, n: nat)
    requires
        osc.wf(),
        osc.mix_ratio == 0,
    ensures
        mixed_samples(osc, n) == sine_samples(osc.sine, n),
    decreases n,
{
    if n > 0 {
        lemma_tdiv_mul_cancel(osc.sine.sample_view(), UNIT as int);
        assert(osc.sample_view() == osc.sine.sample_view());
        lemma_pure_sine_mix(osc.advanced(), (n - 1) as nat);
        assert(mixed_samples(osc, n) =~= sine_samples(osc.sine, n));
    } else {
        assert(mixed_samples(osc, n) =~= sine_samples(osc.sine, n));
    }
}

/// At mix ratio `UNIT` a crossfaded pair reproduces its square half exactly,
/// sample for sample, over any run length.
pub proof fn lemma_pure_square_mix(osc: MixedOscillator, n: nat)
    requires
        osc.wf(),
        osc.mix_ratio == UNIT,
    ensures
        mixed_samples(osc, n) == square_samples(osc.square, n),
    decreases n,
{
    if n > 0 {
        lemma_tdiv_mul_cancel(osc.square.sample_view(), UNIT as int);
        assert(osc.sample_view() == osc.square.sample_view());
        lemma_pure_square_mix(osc.advanced(), (n - 1) as nat);
        assert(mixed_samples(osc, n) =~= square_samples(osc.square, n));
    } else {
        assert(mixed_samples(osc, n) =~= square_samples(osc.square, n));
    }
}

} // verus!
