//! Equal-tempered pitch of a MIDI key, in millihertz.
//!
//! Key `k` sounds at `440 * 2^((k - 69) / 12)` hertz. That value is
//! irrational for most keys, so the library fixes a rational model: the
//! twelve keys of the lowest octave are rounded to the nearest millihertz,
//! and every higher key is exactly double the key an octave below it. Key 9
//! (13.75 Hz) is exact, so concert pitch A4 (key 69) comes out at exactly
//! 440 Hz, and no key is off by more than one part in ten thousand.

use vstd::arithmetic::power2::lemma2_to64;
use vstd::arithmetic::power2::lemma_pow2_strictly_increases;
use vstd::arithmetic::power2::pow2;
use vstd::arithmetic::mul::lemma_mul_upper_bound;
use vstd::prelude::*;

verus! {

/// Frequency in millihertz of the twelve lowest MIDI keys (key numbers 0
/// through 11), each rounded to the nearest millihertz.
pub open spec fn base_millihz(semitone: int) -> int {
    if semitone == 0 {
        8176
    } else if semitone == 1 {
        8662
    } else if semitone == 2 {
        9177
    } else if semitone == 3 {
        9723
    } else if semitone == 4 {
        10301
    } else if semitone == 5 {
        10913
    } else if semitone == 6 {
        11562
    } else if semitone == 7 {
        12250
    } else if semitone == 8 {
        12978
    } else if semitone == 9 {
        13750
    } else if semitone == 10 {
        14568
    } else {
        15434
    }
}

/// The pitch of MIDI key `key`, in millihertz: the base octave entry for
/// its pitch class, doubled once per octave above the lowest.
pub open spec fn spec_frequency_millihz(key: int) -> int {
    base_millihz(key % 12) * pow2((key / 12) as nat)
}

/// The largest pitch in the model, that of key 127 (12544 Hz), and a bound
/// every `frequency_millihz` result respects.
pub const MAX_FREQUENCY_MILLIHZ: u32 = 12_544_000;

/// Powers of two up to the tenth stay at or below 1024.
proof fn lemma_pow2_at_most_1024(e: nat)
    requires
        e <= 10,
    ensures
        pow2(e) <= 1024,
{
    lemma2_to64();
    if e < 10 {
        lemma_pow2_strictly_increases(e, 10);
    }
}

/// Every key of the table sounds between key 0 (about 8.18 Hz) and key 127.
pub proof fn lemma_frequency_range(key: int)
    requires
        0 <= key < 128,
    ensures
        8176 <= spec_frequency_millihz(key) <= MAX_FREQUENCY_MILLIHZ,
{
    let base = base_millihz(key % 12);
    let oct = (key / 12) as nat;
    vstd::arithmetic::div_mod::lemma_fundamental_div_mod(key, 12);
    vstd::arithmetic::div_mod::lemma_mod_bound(key, 12);
    lemma2_to64();
    vstd::arithmetic::power2::lemma_pow2_pos(oct);
    assert(base * 1 <= base * pow2(oct)) by {
        vstd::arithmetic::mul::lemma_mul_left_inequality(base, 1, pow2(oct) as int);
    }
    if oct == 10 {
        // the top octave is cut short: keys 120 through 127 stop at semitone 7
        lemma_mul_upper_bound(base, 12250, pow2(oct) as int, 1024);
    } else {
        assert(pow2(oct) <= 512) by {
            if oct < 9 {
                lemma_pow2_strictly_increases(oct, 9);
            }
        }
        lemma_mul_upper_bound(base, 15434, pow2(oct) as int, 512);
    }
}

/// Each key sounds exactly twice as high as the key an octave below it.
pub proof fn lemma_octave_doubles(key: int)
    requires
        0 <= key,
    ensures
        spec_frequency_millihz(key + 12) == 2 * spec_frequency_millihz(key),
{
    assert((key + 12) % 12 == key % 12 && (key + 12) / 12 == key / 12 + 1) by {
        vstd::arithmetic::div_mod::lemma_hoist_over_denominator(key, 1, 12);
        vstd::arithmetic::div_mod::lemma_add_mod_noop(key, 12, 12);
        vstd::arithmetic::div_mod::lemma_mod_self_0(12);
        vstd::arithmetic::div_mod::lemma_small_mod((key % 12) as nat, 12);
        vstd::arithmetic::div_mod::lemma_mod_bound(key, 12);
    }
    let base = base_millihz(key % 12);
    let oct = (key / 12) as nat;
    assert(pow2(oct + 1) == 2 * pow2(oct)) by {
        vstd::arithmetic::power2::lemma_pow2_unfold(oct + 1);
    }
    assert(base * (2 * pow2(oct)) == 2 * (base * pow2(oct))) by {
        vstd::arithmetic::mul::lemma_mul_is_associative(base, 2, pow2(oct) as int);
        vstd::arithmetic::mul::lemma_mul_is_commutative(base, 2);
        vstd::arithmetic::mul::lemma_mul_is_associative(2, base, pow2(oct) as int);
    }
}

/// Concert pitch: key 69 (A4) sounds at exactly 440 Hz.
pub proof fn lemma_concert_pitch()
    ensures
        spec_frequency_millihz(69) == 440_000,
{
    lemma2_to64();
}

/// The pitch of MIDI key `key` in millihertz, per the library's rational
/// pitch model.
pub fn frequency_millihz(key: u8) -> (freq: u32)
    requires
        key < 128,
    ensures
        freq == spec_frequency_millihz(key as int),
        8176 <= freq <= MAX_FREQUENCY_MILLIHZ,
{
    let base: u32 = match key % 12 {
        0 => 8176,
        1 => 8662,
        2 => 9177,
        3 => 9723,
        4 => 10301,
        5 => 10913,
        6 => 11562,
        7 => 12250,
        8 => 12978,
        9 => 13750,
        10 => 14568,
        _ => 15434,
    };
    let octave: u8 = key / 12;
    let mut freq: u32 = base;
    let mut i: u8 = 0;
    proof {
        lemma2_to64();
    }
    while i < octave
        invariant
            i <= octave <= 10,
            8176 <= base <= 15434,
            base == base_millihz(key as int % 12),
            freq == base * pow2(i as nat),
        decreases octave - i,
    {
        proof {
            lemma_pow2_at_most_1024((i + 1) as nat);
            lemma_mul_upper_bound(base as int, 15434, pow2((i + 1) as nat) as int, 1024);
            assert(base * pow2((i + 1) as nat) == 2 * (base * pow2(i as nat))) by {
                assert(pow2((i + 1) as nat) == 2 * pow2(i as nat)) by {
                    vstd::arithmetic::power2::lemma_pow2_unfold((i + 1) as nat);
                }
                vstd::arithmetic::mul::lemma_mul_is_associative(
                    base as int,
                    2,
                    pow2(i as nat) as int,
                );
                vstd::arithmetic::mul::lemma_mul_is_commutative(base as int, 2);
                vstd::arithmetic::mul::lemma_mul_is_associative(
                    2,
                    base as int,
                    pow2(i as nat) as int,
                );
            }
        }
        freq = freq * 2;
        i = i + 1;
    }
    proof {
        lemma_frequency_range(key as int);
    }
    freq
}

} // verus!
