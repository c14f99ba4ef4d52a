//! A voltage-controlled-amplifier analogue: a modulated gain stage.

use crate::fixed::{div_trunc, lemma_tdiv_mag, lemma_tdiv_mul_cancel, mul_div, tdiv, UNIT};
use crate::traits::Modulatable;
use vstd::arithmetic::div_mod::{lemma_div_of0, lemma_div_pos_is_pos};
use vstd::prelude::*;

verus! {

/// Largest gain or modulation amount the stage accepts, in micro-units (64).
pub const GAIN_LIMIT: i64 = 64_000_000;

/// Largest magnitude the derived gain multiplier can reach, in micro-units.
pub const MODULATION_RANGE: i64 = 33_000_000;

/// Largest input sample magnitude the stage accepts, in micro-units.
pub const VCA_INPUT_LIMIT: i64 = 16_000_000;

/// The gain multiplier a control value sets: the value, nominally in
/// `[-UNIT, UNIT]`, is shifted to `[0, UNIT]`, centred, scaled by the
/// modulation amount and added to unity. At amount `UNIT` the multiplier
/// sweeps about `[UNIT / 2, 3 * UNIT / 2]`; at amount 0 it is exactly
/// `UNIT`.
pub open spec fn vca_gain(amount: int, value: int) -> int {
    UNIT + tdiv((tdiv(value + UNIT, 2) - 500_000) * amount, UNIT as int)
}

/// The sample the stage returns: the input scaled by the base gain, then by
/// the current gain multiplier.
pub open spec fn vca_output(gain: int, modulation: int, x: int) -> int {
    tdiv(tdiv(x * gain, UNIT as int) * modulation, UNIT as int)
}

/// A gain stage scaling each sample by a fixed base gain and a
/// modulation-derived multiplier, which defaults to unity until the first
/// control value arrives.
pub struct VCA {
    /// Base gain in micro-units.
    pub input_gain: i64,
    /// How strongly control values sway the multiplier, in micro-units.
    pub modulation_amount: i64,
    /// The current gain multiplier, in micro-units.
    pub current_modulation: i64,
}

impl VCA {
    /// A gain stage at unity modulation.
    pub fn new(input_gain: i64, modulation_amount: i64) -> (r: Self)
        requires
            -GAIN_LIMIT <= input_gain <= GAIN_LIMIT,
            -GAIN_LIMIT <= modulation_amount <= GAIN_LIMIT,
        ensures
            r.wf(),
            r.input_gain == input_gain,
            r.modulation_amount == modulation_amount,
            r.current_modulation == UNIT,
    {
        VCA { input_gain, modulation_amount, current_modulation: UNIT }
    }

    /// Scale one sample by the base gain and the current multiplier. At
    /// unity modulation the result is exactly the input scaled by the base
    /// gain.
    pub fn process(&mut self, input: i64) -> (r: i64)
        requires
            old(self).wf(),
            -VCA_INPUT_LIMIT <= input <= VCA_INPUT_LIMIT,
        ensures
            *final(self) == *old(self),
            r == vca_output(
                old(self).input_gain as int,
                old(self).current_modulation as int,
                input as int,
            ),
            old(self).current_modulation == UNIT ==> r == tdiv(
                input as int * old(self).input_gain as int,
                UNIT as int,
            ),
    {
        proof {
            assert(-1_024_000_000_000_000 <= input * self.input_gain <= 1_024_000_000_000_000)
                by (nonlinear_arith)
                requires
                    -16_000_000 <= input <= 16_000_000 && -64_000_000 <= self.input_gain
                        <= 64_000_000,
            ;
            lemma_tdiv_mag(input as int * self.input_gain as int, UNIT as int, 1_024_000_000);
        }
        let stage1: i64 = mul_div(input, self.input_gain, UNIT);
        proof {
            assert(-33_792_000_000_000_000 <= stage1 * self.current_modulation
                <= 33_792_000_000_000_000) by (nonlinear_arith)
                requires
                    -1_024_000_000 <= stage1 <= 1_024_000_000 && -33_000_000
                        <= self.current_modulation <= 33_000_000,
            ;
            if self.current_modulation == UNIT {
                lemma_tdiv_mul_cancel(stage1 as int, UNIT as int);
            }
        }
        mul_div(stage1, self.current_modulation, UNIT)
    }
}

impl Modulatable for VCA {
    /// Base gain, modulation amount and multiplier all within range.
    open spec fn wf(&self) -> bool {
        &&& -GAIN_LIMIT <= self.input_gain <= GAIN_LIMIT
        &&& -GAIN_LIMIT <= self.modulation_amount <= GAIN_LIMIT
        &&& -MODULATION_RANGE <= self.current_modulation <= MODULATION_RANGE
    }

    /// Modulation state is the current gain multiplier.
    open spec fn modulation_view(&self) -> int {
        self.current_modulation as int
    }

    /// Derive the gain multiplier from a control value. At modulation amount
    /// 0 the multiplier is exactly unity, whatever the value.
    fn set_modulation(&mut self, value: i64)
        ensures
            final(self).input_gain == old(self).input_gain,
            final(self).modulation_amount == old(self).modulation_amount,
            final(self).current_modulation == vca_gain(
                old(self).modulation_amount as int,
                value as int,
            ),
            old(self).modulation_amount == 0 ==> final(self).current_modulation == UNIT,
    {
        let normalized: i64 = div_trunc(value + UNIT, 2);
        proof {
            lemma_tdiv_mag((value + UNIT) as int, 2, UNIT as int);
            lemma_div_pos_is_pos((value + UNIT) as int, 2);
        }
        let centered: i64 = normalized - 500_000;
        proof {
            assert(-32_000_000_000_000 <= centered * self.modulation_amount
                <= 32_000_000_000_000) by (nonlinear_arith)
                requires
                    -500_000 <= centered <= 500_000 && -64_000_000 <= self.modulation_amount
                        <= 64_000_000,
            ;
            lemma_tdiv_mag(centered as int * self.modulation_amount as int, UNIT as int, 32_000_000);
            if self.modulation_amount == 0 {
                assert(centered * self.modulation_amount == 0) by (nonlinear_arith)
                    requires
                        self.modulation_amount == 0,
                ;
                lemma_div_of0(UNIT as int);
            }
        }
        let offset: i64 = mul_div(centered, self.modulation_amount, UNIT);
        self.current_modulation = UNIT + offset;
    }

    /// The current gain multiplier, in micro-units.
    fn get_modulation(&self) -> (r: i64) {
        self.current_modulation
    }
}

/// A gain stage whose modulation amount is 0 is unaffected by control
/// values: every control value sets the multiplier to exactly unity, and at
/// unity multiplier the output is exactly the input scaled by the base gain.
pub proof fn lemma_vca_unmodulated(value: int, gain: int, x: int)
    ensures
        vca_gain(0, value) == UNIT,
        vca_output(gain, UNIT as int, x) == tdiv(x * gain, UNIT as int),
{
    assert((tdiv(value + UNIT, 2) - 500_000) * 0 == 0) by (nonlinear_arith);
    lemma_div_of0(UNIT as int);
    lemma_tdiv_mul_cancel(tdiv(x * gain, UNIT as int), UNIT as int);
}

} // verus!
