//! Fixed-point arithmetic for the synthesis pipeline.
//!
//! Signal values, gains and ratios are `i64` integers in micro-units: `UNIT`
//! stands for 1.0. Frequencies are `u64` millihertz. An oscillator phase is a
//! tick count in `[0, cycle_ticks)`, where one cycle of a waveform at sample
//! rate `sr` spans `1000 * sr` ticks, so that a phase step of one tick per
//! sample corresponds to exactly one millihertz.

use vstd::arithmetic::div_mod::{
    lemma_add_mod_noop, lemma_div_is_ordered, lemma_div_multiples_vanish,
    lemma_div_nonincreasing, lemma_div_pos_is_pos, lemma_fundamental_div_mod,
    lemma_mod_add_multiples_vanish, lemma_mod_division_less_than_divisor, lemma_small_mod,
};
use vstd::prelude::*;

verus! {

/// The fixed-point representation of 1.0 (one full-scale amplitude or gain).
pub const UNIT: i64 = 1_000_000;

/// Phase ticks per hertz of sample rate: one waveform cycle at sample rate
/// `sr` spans `TICKS_PER_HZ * sr` phase ticks.
pub const TICKS_PER_HZ: u64 = 1000;

/// Largest supported sample rate in hertz.
pub const MAX_SAMPLE_RATE_HZ: u64 = 1_000_000;

/// Largest supported oscillator frequency in millihertz (1 MHz).
pub const MAX_FREQUENCY_MHZ: u64 = 1_000_000_000;

/// Ticks of one waveform cycle at the given sample rate.
pub open spec fn cycle_ticks(sample_rate_hz: int) -> int {
    TICKS_PER_HZ * sample_rate_hz
}

/// Absolute value of a mathematical integer.
pub open spec fn iabs(x: int) -> int {
    if x >= 0 {
        x
    } else {
        -x
    }
}

/// `x` forced into `[lo, hi]`.
pub open spec fn iclamp(x: int, lo: int, hi: int) -> int {
    if x < lo {
        lo
    } else if x > hi {
        hi
    } else {
        x
    }
}

/// The smaller of two integers.
pub open spec fn imin(a: int, b: int) -> int {
    if a <= b {
        a
    } else {
        b
    }
}

/// Division rounded toward zero, the rounding used throughout the pipeline.
pub open spec fn tdiv(n: int, d: int) -> int {
    if n >= 0 {
        n / d
    } else {
        -((-n) / d)
    }
}

/// One phase step: advance `p` by `step` ticks, wrapping modulo `d`.
pub open spec fn wrap_step(p: int, step: int, d: int) -> int {
    (p + step) % d
}

/// `n` phase steps in sequence.
pub open spec fn wrap_steps(p: int, step: int, d: int, n: nat) -> int
    decreases n,
{
    if n == 0 {
        p
    } else {
        wrap_step(wrap_steps(p, step, d, (n - 1) as nat), step, d)
    }
}

/// Distance between two phases on a circle of circumference `d`.
pub open spec fn cyclic_dist(a: int, b: int, d: int) -> int {
    let diff = iabs(a - b);
    if diff <= d - diff {
        diff
    } else {
        d - diff
    }
}

/// `x` forced into `[lo, hi]`.
pub fn clamp_i64(x: i64, lo: i64, hi: i64) -> (r: i64)
    requires
        lo <= hi,
    ensures
        r == iclamp(x as int, lo as int, hi as int),
        lo <= r <= hi,
{
    if x < lo {
        lo
    } else if x > hi {
        hi
    } else {
        x
    }
}

/// Quotient of `n` by a positive `d`, rounded toward zero.
pub fn div_trunc(n: i64, d: i64) -> (r: i64)
    requires
        1 <= d,
        -0x7fff_ffff_ffff_ffff <= n,
    ensures
        r == tdiv(n as int, d as int),
        iabs(r as int) <= iabs(n as int),
{
    if n >= 0 {
        let q: u64 = (n as u64) / (d as u64);
        proof {
            lemma_div_nonincreasing(n as int, d as int);
            lemma_div_pos_is_pos(n as int, d as int);
        }
        q as i64
    } else {
        let m: u64 = ((-n) as u64) / (d as u64);
        proof {
            lemma_div_nonincreasing(-n as int, d as int);
            lemma_div_pos_is_pos(-n as int, d as int);
        }
        -(m as i64)
    }
}

/// `a * b / d` rounded toward zero, for a positive `d`.
pub fn mul_div(a: i64, b: i64, d: i64) -> (r: i64)
    requires
        1 <= d,
        -0x7fff_ffff_ffff_ffff <= a,
        -0x7fff_ffff_ffff_ffff <= b,
        -0x7fff_ffff_ffff_ffff <= a as int * b as int <= 0x7fff_ffff_ffff_ffff,
    ensures
        r == tdiv(a as int * b as int, d as int),
{
    let am: u64 = if a >= 0 {
        a as u64
    } else {
        (-a) as u64
    };
    let bm: u64 = if b >= 0 {
        b as u64
    } else {
        (-b) as u64
    };
    proof {
        assert(am as int * bm as int == iabs(a as int * b as int)) by (nonlinear_arith)
            requires
                am as int == iabs(a as int),
                bm as int == iabs(b as int),
        ;
    }
    let p: u64 = am * bm;
    let q: u64 = p / (d as u64);
    proof {
        lemma_div_nonincreasing(p as int, d as int);
        lemma_div_pos_is_pos(p as int, d as int);
    }
    let qi: i64 = q as i64;
    if (a >= 0) == (b >= 0) {
        proof {
            assert(a as int * b as int >= 0) by (nonlinear_arith)
                requires
                    (a as int >= 0) == (b as int >= 0),
            ;
        }
        qi
    } else {
        proof {
            assert(a as int * b as int <= 0) by (nonlinear_arith)
                requires
                    (a as int >= 0) != (b as int >= 0),
            ;
        }
        -qi
    }
}

/// Rounding toward zero never enlarges a quotient: if `|n| <= m * d` then
/// `|n / d| <= m`.
pub proof fn lemma_tdiv_mag(n: int, d: int, m: int)
    requires
        1 <= d,
        0 <= m,
        -(m * d) <= n <= m * d,
    ensures
        -m <= tdiv(n, d) <= m,
{
    if n >= 0 {
        lemma_div_is_ordered(n, m * d, d);
        lemma_div_multiples_vanish(m, d);
        assert(d * m == m * d) by (nonlinear_arith);
        lemma_div_pos_is_pos(n, d);
    } else {
        lemma_div_is_ordered(-n, m * d, d);
        lemma_div_multiples_vanish(m, d);
        assert(d * m == m * d) by (nonlinear_arith);
        lemma_div_pos_is_pos(-n, d);
    }
}

/// Scaling by `d` and dividing by `d` with truncation is the identity.
pub proof fn lemma_tdiv_mul_cancel(x: int, d: int)
    requires
        1 <= d,
    ensures
        tdiv(x * d, d) == x,
{
    if x >= 0 {
        lemma_div_multiples_vanish(x, d);
        assert(d * x == x * d) by (nonlinear_arith);
        assert(x * d >= 0) by (nonlinear_arith)
            requires
                x >= 0 && d >= 1,
        ;
    } else {
        lemma_div_multiples_vanish(-x, d);
        assert(d * (-x) == -(x * d)) by (nonlinear_arith);
        assert(x * d < 0) by (nonlinear_arith)
            requires
                x < 0 && d >= 1,
        ;
    }
}

/// Scaling `t <= k * d` by `f` and dividing by `d` stays below `k * f`.
pub proof fn lemma_div_scale_upper(t: int, d: int, f: int, k: int)
    requires
        1 <= d,
        0 <= t,
        0 <= f,
        0 <= k,
        t <= k * d,
    ensures
        0 <= (t * f) / d <= k * f,
{
    assert(t * f <= d * (k * f)) by (nonlinear_arith)
        requires
            t <= k * d && 0 <= f,
    ;
    lemma_div_is_ordered(t * f, d * (k * f), d);
    lemma_div_multiples_vanish(k * f, d);
    assert(0 <= t * f) by (nonlinear_arith)
        requires
            0 <= t && 0 <= f,
    ;
    lemma_div_pos_is_pos(t * f, d);
}

/// Scaling `t >= k * d` by `f` and dividing by `d` stays at or above `k * f`.
pub proof fn lemma_div_scale_lower(t: int, d: int, f: int, k: int)
    requires
        1 <= d,
        0 <= k,
        k * d <= t,
        0 <= f,
    ensures
        k * f <= (t * f) / d,
{
    assert(d * (k * f) <= t * f) by (nonlinear_arith)
        requires
            k * d <= t && 0 <= f && 0 <= k && 1 <= d,
    ;
    lemma_div_is_ordered(d * (k * f), t * f, d);
    lemma_div_multiples_vanish(k * f, d);
}

/// One cycle of the sine-like waveform, as a function of the phase `p` within
/// a cycle of `d` ticks: a piecewise parabola, `UNIT - q * q / UNIT` scaled so
/// that `q` runs linearly from `-UNIT` to `UNIT` over each half cycle. It is
/// 0 at phase 0, peaks at `UNIT` a quarter cycle in, returns to 0 at the half
/// cycle and mirrors to a trough of `-UNIT` in the second half.
pub open spec fn sine_wave(p: int, d: int) -> int {
    if 2 * p < d {
        let t = if 4 * p >= d {
            4 * p - d
        } else {
            d - 4 * p
        };
        let u = (t * UNIT) / d;
        UNIT - (u * u) / (UNIT as int)
    } else {
        let t = if 4 * p >= 3 * d {
            4 * p - 3 * d
        } else {
            3 * d - 4 * p
        };
        let u = (t * UNIT) / d;
        -(UNIT - (u * u) / (UNIT as int))
    }
}

proof fn lemma_scale_le(t: int, d: int, f: int)
    requires
        1 <= d,
        0 <= t <= d,
        0 <= f,
    ensures
        0 <= (t * f) / d <= f,
{
    assert(t * f <= d * f) by (nonlinear_arith)
        requires
            t <= d && 0 <= f,
    ;
    assert(0 <= t * f) by (nonlinear_arith)
        requires
            0 <= t && 0 <= f,
    ;
    lemma_div_is_ordered(t * f, d * f, d);
    lemma_div_multiples_vanish(f, d);
    lemma_div_pos_is_pos(t * f, d);
}

/// The sine-like waveform at phase `p` of a `d`-tick cycle.
pub fn sine_value(p: u64, d: u64) -> (r: i64)
    requires
        2 <= d <= 1_000_000_000,
        p < d,
    ensures
        r == sine_wave(p as int, d as int),
        -UNIT <= r <= UNIT,
        2 * p <= d ==> r >= 0,
{
    let unit: u64 = 1_000_000;
    if 2 * p < d {
        let t: u64 = if 4 * p >= d {
            4 * p - d
        } else {
            d - 4 * p
        };
        let u: u64 = t * unit / d;
        proof {
            lemma_scale_le(t as int, d as int, unit as int);
        }
        proof {
            lemma_scale_le(u as int, unit as int, u as int);
        }
        let s: u64 = unit - u * u / unit;
        s as i64
    } else {
        let t: u64 = if 4 * p >= 3 * d {
            4 * p - 3 * d
        } else {
            3 * d - 4 * p
        };
        let u: u64 = t * unit / d;
        proof {
            lemma_scale_le(t as int, d as int, unit as int);
        }
        proof {
            lemma_scale_le(u as int, unit as int, u as int);
            if 2 * p == d {
                assert(t == d);
                assert(t as int * unit as int == d as int * unit as int);
                lemma_div_multiples_vanish(unit as int, d as int);
                assert(u == unit);
                lemma_div_multiples_vanish(unit as int, unit as int);
                assert(u as int * u as int == unit as int * unit as int);
            }
        }
        let s: u64 = unit - u * u / unit;
        -(s as i64)
    }
}

/// Iterated phase stepping has the closed form `(p + n * step) % d`.
pub proof fn lemma_wrap_steps_closed(p: int, step: int, d: int, n: nat)
    requires
        0 < d,
        0 <= p < d,
        0 <= step,
    ensures
        wrap_steps(p, step, d, n) == (p + n * step) % d,
    decreases n,
{
    if n == 0 {
        assert(n * step == 0) by (nonlinear_arith)
            requires
                n == 0,
        ;
        lemma_small_mod(p as nat, d as nat);
    } else {
        lemma_wrap_steps_closed(p, step, d, (n - 1) as nat);
        let prev = p + (n - 1) * step;
        assert(wrap_steps(p, step, d, n) == ((prev % d) + step) % d);
        lemma_mod_division_less_than_divisor(step, d);
        lemma_add_mod_noop(prev, step, d);
        assert(((prev % d) + (step % d)) % d == (prev + step) % d);
        assert(((prev % d) + step) % d == ((prev % d) + (step % d)) % d) by {
            lemma_add_mod_noop(prev % d, step, d);
            lemma_mod_division_less_than_divisor(prev, d);
            lemma_small_mod((prev % d) as nat, d as nat);
        }
        assert((n - 1) * step + step == n * step) by (nonlinear_arith);
        assert(prev + step == p + n * step);
    }
}

/// Periodicity of phase accumulation: at a frequency of `step` millihertz no
/// higher than half the sample rate, running one full period of
/// `d / step` samples brings the phase back to within one step of where it
/// began (measured around the phase circle).
pub proof fn lemma_oscillator_periodicity(p: int, step: int, d: int)
    requires
        0 < d,
        0 <= p < d,
        0 < step,
        2 * step <= d,
    ensures
        cyclic_dist(wrap_steps(p, step, d, (d / step) as nat), p, d) < step,
{
    let n = d / step;
    let r = d % step;
    lemma_div_pos_is_pos(d, step);
    lemma_mod_division_less_than_divisor(d, step);
    lemma_fundamental_div_mod(d, step);
    assert(step * n == n * step) by (nonlinear_arith);
    lemma_wrap_steps_closed(p, step, d, n as nat);
    assert(wrap_steps(p, step, d, n as nat) == (p + n * step) % d);
    assert(p + n * step == p + d - r);
    let pn = (p + d - r) % d;
    if p >= r {
        lemma_mod_add_multiples_vanish(p - r, d);
        lemma_small_mod((p - r) as nat, d as nat);
        assert(pn == p - r);
    } else {
        lemma_small_mod((p + d - r) as nat, d as nat);
        assert(pn == p + d - r);
    }
}

} // verus!
