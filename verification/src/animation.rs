//! The mascot's entrance animation, in fixed point.
//!
//! Every render frame eases the image's scale and opacity toward their
//! targets by the fraction of a second that passed, and each playback tick
//! snaps them back to a small, transparent start so the pop-in effect repeats
//! per day. Values are kept in thousandths (a scale of 1000 is full size, an
//! opacity of 1000 is fully opaque), so the easing is exact integer
//! arithmetic; the renderer divides by 1000 on its way out.

use vstd::prelude::*;
use vstd::arithmetic::div_mod::{lemma_div_is_ordered, lemma_div_multiples_vanish};
use vstd::arithmetic::mul::lemma_mul_inequality;

verus! {

/// Full size / full opacity, in thousandths.
pub const TARGET_MILLI: u32 = 1000;

/// Scale right after a tick: the image pops in at 0.8 of its size.
pub const SCALE_START_MILLI: u32 = 800;

/// Opacity right after a tick: the image pops in fully transparent.
pub const OPACITY_START_MILLI: u32 = 0;

/// Easing gain per second, as a pure number: an ideal frame of `dt` seconds
/// closes `8 * dt` of the remaining gap.
pub const ANIMATION_SPEED: u64 = 8;

/// The fraction of the remaining gap one frame of `dt_ms` milliseconds
/// closes, in thousandths, saturated at the whole gap.
pub open spec fn ease_rate(dt_ms: u64) -> int {
    if dt_ms * ANIMATION_SPEED >= 1000 {
        1000
    } else {
        dt_ms * ANIMATION_SPEED
    }
}

/// One easing step: `value` moves toward `TARGET_MILLI` by `rate`
/// thousandths of the remaining gap, rounded down.
pub open spec fn eased(value: int, rate: int) -> int {
    value + (TARGET_MILLI - value) * rate / 1000
}

/// The whole animation state one frame of `dt_ms` milliseconds later.
pub open spec fn ease_step(a: AnimatedImage, dt_ms: u64) -> AnimatedImage {
    AnimatedImage {
        scale_milli: eased(a.scale_milli as int, ease_rate(dt_ms)) as u32,
        opacity_milli: eased(a.opacity_milli as int, ease_rate(dt_ms)) as u32,
        ..a
    }
}

/// Scale and opacity of the mascot image, in thousandths, with their fixed
/// targets. The sinusoidal float offset that completes the effect is pure
/// rendering and lives with the renderer.
pub struct AnimatedImage {
    pub scale_milli: u32,
    pub target_scale_milli: u32,
    pub opacity_milli: u32,
    pub target_opacity_milli: u32,
}

impl AnimatedImage {
    /// Both values lie between zero and their (fixed) targets.
    pub open spec fn wf(self) -> bool {
        &&& self.scale_milli <= TARGET_MILLI
        &&& self.opacity_milli <= TARGET_MILLI
        &&& self.target_scale_milli == TARGET_MILLI
        &&& self.target_opacity_milli == TARGET_MILLI
    }

    /// The state right after a reset: small and transparent.
    pub open spec fn is_start(self) -> bool {
        &&& self.scale_milli == SCALE_START_MILLI
        &&& self.opacity_milli == OPACITY_START_MILLI
        &&& self.target_scale_milli == TARGET_MILLI
        &&& self.target_opacity_milli == TARGET_MILLI
    }

    /// A fresh animation starts small and transparent.
    pub fn new() -> (r: Self)
        ensures
            r.is_start(),
            r.wf(),
    {
        Self {
            scale_milli: SCALE_START_MILLI,
            target_scale_milli: TARGET_MILLI,
            opacity_milli: OPACITY_START_MILLI,
            target_opacity_milli: TARGET_MILLI,
        }
    }

    /// One render frame of `dt_ms` milliseconds: scale and opacity each move
    /// toward their targets by the eased fraction of the remaining gap, and
    /// never past them.
    pub fn animate(&mut self, dt_ms: u64)
        requires
            old(self).wf(),
        ensures
            final(self).wf(),
            *final(self) == ease_step(*old(self), dt_ms),
            final(self).scale_milli == eased(old(self).scale_milli as int, ease_rate(dt_ms)),
            final(self).opacity_milli == eased(old(self).opacity_milli as int, ease_rate(dt_ms)),
            old(self).scale_milli <= final(self).scale_milli <= TARGET_MILLI,
            old(self).opacity_milli <= final(self).opacity_milli <= TARGET_MILLI,
            final(self).target_scale_milli == old(self).target_scale_milli,
            final(self).target_opacity_milli == old(self).target_opacity_milli,
    {
        let rate: u64 = if dt_ms >= 125 {
            1000
        } else {
            dt_ms * 8
        };
        proof {
            lemma_easing_converges(self.scale_milli as int, rate as int);
            lemma_easing_converges(self.opacity_milli as int, rate as int);
        }
        let scale = self.scale_milli as u64;
        self.scale_milli = (scale + (1000 - scale) * rate / 1000) as u32;
        let opacity = self.opacity_milli as u64;
        self.opacity_milli = (opacity + (1000 - opacity) * rate / 1000) as u32;
    }

    /// Snap back to the start values; the targets stay.
    pub fn reset(&mut self)
        ensures
            final(self).scale_milli == SCALE_START_MILLI,
            final(self).opacity_milli == OPACITY_START_MILLI,
            final(self).target_scale_milli == old(self).target_scale_milli,
            final(self).target_opacity_milli == old(self).target_opacity_milli,
            old(self).wf() ==> final(self).wf(),
    {
        self.scale_milli = SCALE_START_MILLI;
        self.opacity_milli = OPACITY_START_MILLI;
    }
}

/// Law: the easing converges toward the target and never overshoots it. One
/// step never moves a value backwards or past the target, the remaining gap
/// never grows, a full-rate step lands exactly on the target, and any step
/// whose scaled gap reaches a whole unit makes strict progress.
pub proof fn lemma_easing_converges(value: int, rate: int)
    requires
        0 <= value <= TARGET_MILLI,
        0 <= rate <= 1000,
    ensures
        value <= eased(value, rate) <= TARGET_MILLI,
        (TARGET_MILLI - eased(value, rate)) <= (TARGET_MILLI - value),
        rate == 1000 ==> eased(value, rate) == TARGET_MILLI,
        (TARGET_MILLI - value) * rate >= 1000 ==> eased(value, rate) > value,
{
    let gap = TARGET_MILLI - value;
    assert(gap * rate >= 0) by (nonlinear_arith)
        requires
            gap >= 0,
            rate >= 0,
    ;
    lemma_div_is_ordered(0, gap * rate, 1000);
    lemma_mul_inequality(rate, 1000, gap);
    assert(gap * rate == rate * gap) by (nonlinear_arith);
    assert(gap * 1000 == 1000 * gap) by (nonlinear_arith);
    lemma_div_multiples_vanish(gap, 1000);
    lemma_div_is_ordered(gap * rate, gap * 1000, 1000);
    if (TARGET_MILLI - value) * rate >= 1000 {
        lemma_div_is_ordered(1000, gap * rate, 1000);
    }
}

} // verus!
