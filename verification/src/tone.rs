//! Per-sample square-wave synthesis.
//!
//! The generator keeps a phase accumulator that counts elapsed samples,
//! wrapped modulo the sample rate, and derives the waveform level at a
//! phase `t` from two floors:
//!
//! `level = 4 * floor(f*t/sr) - 2 * floor(2*f*t/sr) + 1`
//!
//! which is `+1` through the first half of each waveform period and `-1`
//! through the second. With the frequency `f` held in millihertz the floors
//! are exact integer divisions by `1000 * sr`, so the whole step is integer
//! arithmetic. The level is a unit amplitude; a host scales it by its
//! output gain.

use vstd::arithmetic::div_mod::lemma_fundamental_div_mod;
use vstd::arithmetic::div_mod::lemma_fundamental_div_mod_converse;
use vstd::arithmetic::div_mod::lemma_hoist_over_denominator;
use vstd::arithmetic::div_mod::lemma_mod_bound;
use vstd::arithmetic::div_mod::lemma_small_mod;
use vstd::arithmetic::mul::lemma_mul_is_associative;
use vstd::arithmetic::mul::lemma_mul_is_commutative;
use vstd::arithmetic::mul::lemma_mul_is_distributive_add;
use vstd::arithmetic::mul::lemma_mul_nonnegative;
use vstd::arithmetic::mul::lemma_mul_upper_bound;
use vstd::prelude::*;

use crate::pitch::MAX_FREQUENCY_MILLIHZ;

verus! {

/// The square-wave level at phase `phase` of a tone of `freq_millihz`
/// millihertz sampled at `sample_rate` samples per second:
/// `4 * floor(f*t/sr) - 2 * floor(2*f*t/sr) + 1`, scaled to millihertz.
pub open spec fn square_wave_level(freq_millihz: int, phase: int, sample_rate: int) -> int {
    4 * ((freq_millihz * phase) / (1000 * sample_rate)) - 2 * ((2 * (freq_millihz * phase)) / (
    1000 * sample_rate)) + 1
}

/// The square wave never leaves the unit amplitudes: its level is `+1`
/// while the tone is in the first half of a waveform period (the remainder
/// of `f*t` modulo `1000*sr` is below half of `1000*sr`) and `-1` in the
/// second half.
pub proof fn lemma_square_level_unit(f: int, p: int, sr: int)
    requires
        0 <= f,
        0 <= p,
        0 < sr,
    ensures
        square_wave_level(f, p, sr) == 1 || square_wave_level(f, p, sr) == -1,
        square_wave_level(f, p, sr) == 1 <==> 2 * ((f * p) % (1000 * sr)) < 1000 * sr,
{
    let x = f * p;
    let d = 1000 * sr;
    lemma_mul_nonnegative(f, p);
    lemma_fundamental_div_mod(x, d);
    lemma_mod_bound(x, d);
    let q = x / d;
    let r = x % d;
    assert(2 * x == (2 * q) * d + 2 * r) by {
        lemma_mul_is_associative(2, d, q);
        lemma_mul_is_associative(2, q, d);
        lemma_mul_is_commutative(d, q);
        lemma_mul_is_commutative(2 * q, d);
    }
    if 2 * r < d {
        lemma_fundamental_div_mod_converse(2 * x, d, 2 * q, 2 * r);
    } else {
        assert(2 * x == (2 * q + 1) * d + (2 * r - d)) by {
            lemma_mul_is_distributive_add(d, 2 * q, 1);
            lemma_mul_is_commutative(d, 2 * q + 1);
            lemma_mul_is_commutative(d, 2 * q);
        }
        lemma_fundamental_div_mod_converse(2 * x, d, 2 * q + 1, 2 * r - d);
    }
}

/// The square wave is periodic in the phase accumulator: shifting the
/// phase by a whole number of waveform periods leaves the level unchanged.
/// A shift of `shift` samples is a whole number of periods exactly when
/// `f * shift` is a multiple of `1000 * sr` — for a tone of `f/1000` hertz
/// that is a multiple of `sr / (f/1000)` samples, the period the tone
/// sounds at.
pub proof fn lemma_square_wave_periodic(f: int, p: int, shift: int, sr: int)
    requires
        0 <= f,
        0 <= p,
        0 <= shift,
        0 < sr,
        (f * shift) % (1000 * sr) == 0,
    ensures
        square_wave_level(f, p + shift, sr) == square_wave_level(f, p, sr),
{
    let x = f * p;
    let d = 1000 * sr;
    let m = (f * shift) / d;
    lemma_fundamental_div_mod(f * shift, d);
    assert(f * (p + shift) == x + m * d) by {
        lemma_mul_is_distributive_add(f, p, shift);
        lemma_mul_is_commutative(d, m);
    }
    assert((x + m * d) / d == x / d + m) by {
        lemma_hoist_over_denominator(x, m, d as nat);
    }
    assert(2 * (x + m * d) == 2 * x + (2 * m) * d) by {
        lemma_mul_is_distributive_add(2, x, m * d);
        lemma_mul_is_associative(2, m, d);
    }
    assert((2 * x + (2 * m) * d) / d == (2 * x) / d + 2 * m) by {
        lemma_hoist_over_denominator(2 * x, 2 * m, d as nat);
    }
}

/// One step of the tone generator: advance the phase accumulator by one
/// sample, wrapping modulo the sample rate, and sound the square-wave
/// level at the new phase. Pure and allocation-free; the returned level is
/// `+1` or `-1`.
pub fn next_square_sample(freq_millihz: u32, phase: u32, sample_rate: u32) -> (r: (i8, u32))
    requires
        0 < sample_rate,
        phase < sample_rate,
        freq_millihz <= MAX_FREQUENCY_MILLIHZ,
    ensures
        r.1 == (phase + 1) % (sample_rate as int),
        r.1 < sample_rate,
        r.0 == square_wave_level(freq_millihz as int, r.1 as int, sample_rate as int),
        r.0 == 1 || r.0 == -1,
{
    let new_phase: u32 = if phase + 1 == sample_rate {
        0
    } else {
        phase + 1
    };
    proof {
        if phase + 1 == sample_rate {
            vstd::arithmetic::div_mod::lemma_mod_self_0(sample_rate as int);
        } else {
            lemma_small_mod((phase + 1) as nat, sample_rate as nat);
        }
        lemma_mul_upper_bound(
            freq_millihz as int,
            MAX_FREQUENCY_MILLIHZ as int,
            new_phase as int,
            0xffff_ffff,
        );
    }
    let num: u64 = (freq_millihz as u64) * (new_phase as u64);
    let den: u64 = 1000 * (sample_rate as u64);
    let rem: u64 = num % den;
    proof {
        lemma_square_level_unit(freq_millihz as int, new_phase as int, sample_rate as int);
        lemma_mod_bound(num as int, den as int);
    }
    let level: i8 = if 2 * rem < den {
        1
    } else {
        -1
    };
    (level, new_phase)
}

} // verus!
