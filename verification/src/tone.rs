//! The pitch rule for the per-day tone.
//!
//! Each playback step sounds a sine tone whose pitch encodes the day's move:
//! a rise divides the 440 Hz base by one plus half the absolute percent
//! change (gains sound lower), a fall multiplies it by the same factor
//! (losses sound higher). With the change `(next - current) / current * 100`,
//! the factor `1 + |change| / 2` equals `(2 * current + 100 * |next -
//! current|) / (2 * current)`, so the pitch is an exact integer ratio; it is
//! computed here in millihertz and the audio layer divides by 1000.

use vstd::prelude::*;
use vstd::arithmetic::div_mod::{lemma_div_is_ordered, lemma_div_is_ordered_by_denominator,
    lemma_div_multiples_vanish};

verus! {

/// The base tone, in millihertz: 440 Hz.
pub const BASE_FREQ_MILLIHZ: u64 = 440_000;

/// The pitch of the tone for a day whose price moves from `current` to
/// `next`, in millihertz.
pub open spec fn tone_freq_spec(current: int, next: int) -> int {
    if next >= current {
        (BASE_FREQ_MILLIHZ * 2) * current / (2 * current + 100 * (next - current))
    } else {
        BASE_FREQ_MILLIHZ * (2 * current + 100 * (current - next)) / (2 * current)
    }
}

/// Computes the tone for one price step: at or above the old price the tone
/// drops below the base pitch, below it the tone rises above it, and an
/// unchanged price sounds the base pitch exactly.
pub fn tone_freq_millihz(current: u64, next: u64) -> (r: u128)
    requires
        current > 0,
    ensures
        r == tone_freq_spec(current as int, next as int),
        next >= current ==> r <= BASE_FREQ_MILLIHZ,
        next < current ==> r >= BASE_FREQ_MILLIHZ,
        next == current ==> r == BASE_FREQ_MILLIHZ,
    {
    let cur = current as u128;
    if next >= current {
        let diff = (next - current) as u128;
        let r = (BASE_FREQ_MILLIHZ as u128 * 2) * cur / (2 * cur + 100 * diff);
        proof {
            lemma_div_is_ordered_by_denominator(
                880_000 * cur as int,
                2 * cur as int,
                2 * cur + 100 * (next - current),
            );
            lemma_div_multiples_vanish(440_000, 2 * cur as int);
            assert(880_000 * cur as int == (2 * cur as int) * 440_000) by (nonlinear_arith);
        }
        r
    } else {
        let diff = (current - next) as u128;
        let r = BASE_FREQ_MILLIHZ as u128 * (2 * cur + 100 * diff) / (2 * cur);
        proof {
            assert(440_000 * (2 * cur as int) <= 440_000 * (2 * cur + 100 * (current - next)))
                by (nonlinear_arith)
                requires
                    current < next || next < current,
                    cur == current,
                    current > 0,
                    next < current,
            ;
            lemma_div_is_ordered(
                440_000 * (2 * cur as int),
                440_000 * (2 * cur + 100 * (current - next)),
                2 * cur as int,
            );
            lemma_div_multiples_vanish(440_000, 2 * cur as int);
            assert(440_000 * (2 * cur as int) == (2 * cur as int) * 440_000) by (nonlinear_arith);
        }
        r
    }
}

} // verus!
