//! The playback sequencer: one chart session's cursor and tick gating.
//!
//! A session owns a daily price series and replays it. Wall-clock time
//! accumulates frame by frame; once two seconds have gathered — and no
//! earlier tone is still sounding — the cursor advances one day, the percent
//! change is computed, a tone pitch and a reaction image are chosen, and the
//! entrance animation snaps back to its start. At the last day the cursor
//! stops advancing, but the page stays interactive until the user goes back.

use vstd::prelude::*;
use crate::animation::{AnimatedImage, ease_step, OPACITY_START_MILLI, SCALE_START_MILLI,
    TARGET_MILLI};
use crate::daily::ChartData;
use crate::images::{ImageSequencer, advance_bull, advance_bear, BULL_POOL_SIZE};
use crate::tone::{tone_freq_millihz, tone_freq_spec};

verus! {

/// Milliseconds of accumulated wall-clock time one playback step takes.
pub const TICK_INTERVAL_MS: u64 = 2000;

/// Everything one advance of the playback reports to the caller: the percent
/// change as the exact ratio `pct_num / pct_den` (the change times one
/// hundred over the old price), its direction, the reaction image chosen
/// from the matching pool, and the tone pitch.
pub struct TickOutcome {
    pub pct_num: i128,
    pub pct_den: u64,
    pub bullish: bool,
    pub image_index: usize,
    pub freq_millihz: u128,
}

/// One chart page's playback state.
pub struct ChartSession {
    pub data: ChartData,
    pub current_index: usize,
    pub animation_timer_ms: u64,
    pub point_progress_milli: u32,
    pub current_texture_index: usize,
    pub image_sequencer: ImageSequencer,
    pub image_animation: AnimatedImage,
    pub should_return_home: bool,
}

/// `a + b` in milliseconds, saturated at the counter's width.
pub open spec fn sat_add_ms(a: u64, b: u64) -> int {
    if a + b > u64::MAX {
        u64::MAX as int
    } else {
        a + b
    }
}

/// The point-drawing progress one frame later: it climbs by twice the frame
/// time and stops at one.
pub open spec fn bumped_progress(p: int, dt_ms: u64) -> int {
    if p + 2 * dt_ms >= 1000 {
        1000
    } else {
        p + 2 * dt_ms
    }
}

/// The one idle session over `data`: what a chart page starts from.
pub open spec fn fresh_session(data: ChartData) -> ChartSession {
    ChartSession {
        data,
        current_index: 0,
        animation_timer_ms: 0,
        point_progress_milli: 0,
        current_texture_index: 0,
        image_sequencer: ImageSequencer { bull_index: 0, bear_index: 0 },
        image_animation: AnimatedImage {
            scale_milli: SCALE_START_MILLI,
            target_scale_milli: TARGET_MILLI,
            opacity_milli: OPACITY_START_MILLI,
            target_opacity_milli: TARGET_MILLI,
        },
        should_return_home: false,
    }
}

impl ChartSession {
    /// Number of days in the session's series.
    pub open spec fn series_len(self) -> int {
        self.data.daily_prices@.len() as int
    }

    /// The price of day `i`.
    pub open spec fn price_at(self, i: int) -> int {
        self.data.daily_prices@[i].price as int
    }

    /// The cursor sits on a day of a well-formed series, the progress and
    /// animation values are in range, and the image cursors are in their
    /// pools.
    pub open spec fn wf(self) -> bool {
        &&& self.data.wf()
        &&& self.current_index < self.series_len()
        &&& self.point_progress_milli <= 1000
        &&& self.current_texture_index < BULL_POOL_SIZE
        &&& self.image_sequencer.wf()
        &&& self.image_animation.wf()
    }

    /// An idle session over `data`: cursor at the first day, no accumulated
    /// time, both image pools at their start, animation at its start values.
    pub open spec fn fresh_for(self, data: ChartData) -> bool {
        &&& self.data == data
        &&& self.current_index == 0
        &&& self.animation_timer_ms == 0
        &&& self.point_progress_milli == 0
        &&& self.current_texture_index == 0
        &&& self.image_sequencer.bull_index == 0
        &&& self.image_sequencer.bear_index == 0
        &&& self.image_animation.is_start()
        &&& !self.should_return_home
    }

    /// This frame will advance the cursor: no tone is still sounding, a full
    /// interval has accumulated, and a next day exists.
    pub open spec fn will_advance(self, dt_ms: u64, audio_busy: bool) -> bool {
        &&& !audio_busy
        &&& sat_add_ms(self.animation_timer_ms, dt_ms) >= TICK_INTERVAL_MS
        &&& self.current_index + 1 < self.series_len()
    }

    /// Starts an idle session over a freshly fetched series.
    pub fn new(data: ChartData) -> (r: Self)
        requires
            data.wf(),
        ensures
            r == fresh_session(data),
            r.fresh_for(data),
            r.wf(),
    {
        Self {
            data,
            current_index: 0,
            animation_timer_ms: 0,
            point_progress_milli: 0,
            current_texture_index: 0,
            image_sequencer: ImageSequencer::new(),
            image_animation: AnimatedImage::new(),
            should_return_home: false,
        }
    }

    /// One render frame of `dt_ms` milliseconds. The entrance animation and
    /// the point progress always move; the cursor advances exactly when a
    /// full interval has accumulated, no tone is still sounding, and a next
    /// day exists — then the percent change `(next - current) / current *
    /// 100` is reported as an exact ratio, the tone pitch and a reaction
    /// image are chosen by its sign, and the timer, progress and animation
    /// restart. The cursor never moves back and never passes the last day.
    pub fn tick(&mut self, dt_ms: u64, audio_busy: bool) -> (r: Option<TickOutcome>)
        requires
            old(self).wf(),
        ensures
            final(self).wf(),
            final(self).data == old(self).data,
            final(self).should_return_home == old(self).should_return_home,
            old(self).current_index <= final(self).current_index,
            final(self).current_index < old(self).series_len(),
            r is Some <==> old(self).will_advance(dt_ms, audio_busy),
            r matches Some(o) ==> {
                let cur = old(self).price_at(old(self).current_index as int);
                let nxt = old(self).price_at(old(self).current_index + 1);
                &&& o.pct_num == (nxt - cur) * 100
                &&& o.pct_den == cur
                &&& o.bullish == (nxt >= cur)
                &&& o.image_index == if nxt >= cur {
                    old(self).image_sequencer.bull_index
                } else {
                    old(self).image_sequencer.bear_index
                }
                &&& o.freq_millihz == tone_freq_spec(cur, nxt)
                &&& final(self).current_index == old(self).current_index + 1
                &&& final(self).animation_timer_ms == 0
                &&& final(self).point_progress_milli == 0
                &&& final(self).current_texture_index == o.image_index
                &&& final(self).image_sequencer == if nxt >= cur {
                    advance_bull(old(self).image_sequencer)
                } else {
                    advance_bear(old(self).image_sequencer)
                }
                &&& final(self).image_animation.is_start()
            },
            r is None ==> {
                &&& final(self).current_index == old(self).current_index
                &&& final(self).animation_timer_ms == sat_add_ms(
                    old(self).animation_timer_ms,
                    dt_ms,
                )
                &&& final(self).point_progress_milli == bumped_progress(
                    old(self).point_progress_milli as int,
                    dt_ms,
                )
                &&& final(self).current_texture_index == old(self).current_texture_index
                &&& final(self).image_sequencer == old(self).image_sequencer
                &&& final(self).image_animation == ease_step(old(self).image_animation, dt_ms)
            },
    {
        self.image_animation.animate(dt_ms);
        if dt_ms >= 500 {
            self.point_progress_milli = 1000;
        } else {
            let bump = self.point_progress_milli + (dt_ms as u32) * 2;
            self.point_progress_milli = if bump > 1000 {
                1000
            } else {
                bump
            };
        }
        self.animation_timer_ms = if dt_ms > u64::MAX - self.animation_timer_ms {
            u64::MAX
        } else {
            self.animation_timer_ms + dt_ms
        };
        if audio_busy {
            return None;
        }
        if self.animation_timer_ms >= TICK_INTERVAL_MS && self.current_index
            < self.data.daily_prices.len() - 1 {
            let current_price = self.data.daily_prices[self.current_index].price;
            let next_price = self.data.daily_prices[self.current_index + 1].price;
            let pct_num = (next_price as i128 - current_price as i128) * 100;
            let bullish = next_price >= current_price;
            let freq_millihz = tone_freq_millihz(current_price, next_price);
            let image_index = if bullish {
                self.image_sequencer.get_next_bull_index()
            } else {
                self.image_sequencer.get_next_bear_index()
            };
            self.image_animation.reset();
            self.point_progress_milli = 0;
            self.current_index = self.current_index + 1;
            self.animation_timer_ms = 0;
            self.current_texture_index = image_index;
            return Some(
                TickOutcome { pct_num, pct_den: current_price, bullish, image_index, freq_millihz },
            );
        }
        None
    }

    /// Whether the day under the cursor closed at or above the day before:
    /// the direction the mascot shown this frame stands for. The first day
    /// has no day before, so no image is shown there.
    pub fn display_direction(&self) -> (r: Option<bool>)
        requires
            self.wf(),
        ensures
            self.current_index == 0 ==> r is None,
            self.current_index > 0 ==> r == Some(
                self.price_at(self.current_index as int) >= self.price_at(
                    self.current_index - 1,
                ),
            ),
    {
        if self.current_index == 0 {
            None
        } else {
            Some(
                self.data.daily_prices[self.current_index].price
                    >= self.data.daily_prices[self.current_index - 1].price,
            )
        }
    }
}

} // verus!
