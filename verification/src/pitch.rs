//! Equal-temperament pitch arithmetic, referenced to A4 = 440 Hz.
//!
//! A pitch `d` half-semitones above A4 sounds at `440 · 2^(d/24)` Hz.  The
//! driver needs that value as a rounded integer, bit-exactly, so it is
//! computed in 32.32 fixed point: a table holds `2^(r/24) · 2^32`, rounded,
//! for the 24 half-semitone steps of one octave, and whole octaves become
//! binary shifts.  The table keeps more than nine significant decimal digits,
//! so the rounded integer frequency agrees with the real-valued formula
//! across the whole supported range.

use vstd::prelude::*;

use vstd::arithmetic::div_mod::lemma_div_is_ordered_by_denominator;
use vstd::arithmetic::power2::{lemma2_to64, lemma2_to64_rest, lemma_pow2_strictly_increases, pow2};
use vstd::bits::{lemma_u64_pow2_no_overflow, lemma_u64_shl_is_mul, lemma_u64_shr_is_div};

verus! {

/// `2^(step/24) · 2^32`, rounded to the nearest integer, for one octave of
/// half-semitone steps (`step` in 0 through 23).
pub open spec fn step_ratio(step: int) -> u64 {
    if step == 0 {
        0x1_0000_0000
    } else if step == 1 {
        0x1_0780_59F4
    } else if step == 2 {
        0x1_0F38_F92E
    } else if step == 3 {
        0x1_172B_83C8
    } else if step == 4 {
        0x1_1F59_AC3C
    } else if step == 5 {
        0x1_27C5_31C0
    } else if step == 6 {
        0x1_306F_E0A3
    } else if step == 7 {
        0x1_395B_92B1
    } else if step == 8 {
        0x1_428A_2F99
    } else if step == 9 {
        0x1_4BFD_AD53
    } else if step == 10 {
        0x1_55B8_108F
    } else if step == 11 {
        0x1_5FBB_6D1E
    } else if step == 12 {
        0x1_6A09_E668
    } else if step == 13 {
        0x1_74A5_AFDF
    } else if step == 14 {
        0x1_7F91_0D77
    } else if step == 15 {
        0x1_8ACE_5423
    } else if step == 16 {
        0x1_965F_EA54
    } else if step == 17 {
        0x1_A248_487C
    } else if step == 18 {
        0x1_AE89_F996
    } else if step == 19 {
        0x1_BB27_9BAE
    } else if step == 20 {
        0x1_C823_E075
    } else if step == 21 {
        0x1_D581_8DD0
    } else if step == 22 {
        0x1_E343_7E71
    } else {
        0x1_F16C_A275
    }
}

/// The rounded integer frequency, in Hz, of the pitch `distance`
/// half-semitones above A4 (negative distances lie below A4): the fixed-point
/// evaluation of `440 · 2^(distance/24)`, rounded to nearest.
///
/// The distance is shifted by 60 octaves so the octave split works on a
/// non-negative value; `shift` then folds the 32 fixed-point fraction bits
/// and the octave shifts into one power of two.  Pitches more than about ten
/// octaves below A4 round to 0.
pub open spec fn pitch_hz(distance: int) -> int
    recommends
        distance <= 480,
{
    let shifted = distance + 1440;
    let octaves = shifted / 24;
    let step = shifted % 24;
    let shift = 92 - octaves;
    if shift >= 43 {
        0
    } else {
        (440 * step_ratio(step) + pow2((shift - 1) as nat)) as int / pow2(shift as nat) as int
    }
}

/// The fixed-point ratio of one half-semitone step within an octave.
fn step_ratio_lookup(step: u32) -> (ratio: u64)
    requires
        step < 24,
    ensures
        ratio == step_ratio(step as int),
        ratio <= 0x1_F16C_A275,
{
    if step == 0 {
        0x1_0000_0000
    } else if step == 1 {
        0x1_0780_59F4
    } else if step == 2 {
        0x1_0F38_F92E
    } else if step == 3 {
        0x1_172B_83C8
    } else if step == 4 {
        0x1_1F59_AC3C
    } else if step == 5 {
        0x1_27C5_31C0
    } else if step == 6 {
        0x1_306F_E0A3
    } else if step == 7 {
        0x1_395B_92B1
    } else if step == 8 {
        0x1_428A_2F99
    } else if step == 9 {
        0x1_4BFD_AD53
    } else if step == 10 {
        0x1_55B8_108F
    } else if step == 11 {
        0x1_5FBB_6D1E
    } else if step == 12 {
        0x1_6A09_E668
    } else if step == 13 {
        0x1_74A5_AFDF
    } else if step == 14 {
        0x1_7F91_0D77
    } else if step == 15 {
        0x1_8ACE_5423
    } else if step == 16 {
        0x1_965F_EA54
    } else if step == 17 {
        0x1_A248_487C
    } else if step == 18 {
        0x1_AE89_F996
    } else if step == 19 {
        0x1_BB27_9BAE
    } else if step == 20 {
        0x1_C823_E075
    } else if step == 21 {
        0x1_D581_8DD0
    } else if step == 22 {
        0x1_E343_7E71
    } else {
        0x1_F16C_A275
    }
}

/// The rounded integer frequency, in Hz, of the pitch `distance`
/// half-semitones above A4.  A distance of 0 is A4 itself, 440 Hz exactly.
pub fn hz_for_half_semitones(distance: i32) -> (hz: u32)
    requires
        distance <= 480,
    ensures
        hz as int == pitch_hz(distance as int),
{
    if distance < -1440 {
        proof {
            assert((distance + 1440) / 24 < 0) by (nonlinear_arith)
                requires
                    distance + 1440 < 0,
            ;
        }
        return 0;
    }
    let shifted: u32 = (distance + 1440) as u32;
    let octaves: u32 = shifted / 24;
    let step: u32 = shifted % 24;
    let shift: u32 = 92 - octaves;
    if shift >= 43 {
        return 0;
    }
    let scaled: u64 = 440 * step_ratio_lookup(step);
    let half: u64 = 1u64 << ((shift - 1) as u64);
    proof {
        lemma2_to64();
        lemma2_to64_rest();
        lemma_u64_pow2_no_overflow((shift - 1) as nat);
        lemma_u64_shl_is_mul(1u64, (shift - 1) as u64);
        assert(pow2((shift - 1) as nat) <= pow2(41)) by {
            if ((shift - 1) as nat) < 41 {
                lemma_pow2_strictly_increases((shift - 1) as nat, 41);
            }
        }
    }
    let rounded: u64 = scaled + half;
    let hz: u64 = rounded >> (shift as u64);
    proof {
        lemma_u64_shr_is_div(rounded, shift as u64);
        assert(pow2(12) <= pow2(shift as nat)) by {
            if 12 < shift {
                lemma_pow2_strictly_increases(12, shift as nat);
            }
        }
        lemma_div_is_ordered_by_denominator(rounded as int, pow2(12) as int, pow2(shift as nat) as int);
        assert((rounded as int) / (pow2(12) as int) < 0x1_0000_0000);
    }
    hz as u32
}

} // verus!
