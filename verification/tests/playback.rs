use crypto_sonifier::animation::AnimatedImage;
use crypto_sonifier::chart::{rise_flags, visible_points};
use crypto_sonifier::daily::{ChartData, RawSample};
use crypto_sonifier::images::ImageSequencer;
use crypto_sonifier::sequencer::ChartSession;
use crypto_sonifier::tone::tone_freq_millihz;

const DAY_MS: u64 = 86_400_000;

fn chart_of(prices: &[u64]) -> ChartData {
    let samples: Vec<RawSample> = prices
        .iter()
        .enumerate()
        .map(|(i, &price)| RawSample { timestamp_ms: (i as u64) * DAY_MS, price })
        .collect();
    ChartData::from_samples(&samples).unwrap()
}

#[test]
fn fresh_session_is_idle_at_day_zero() {
    let session = ChartSession::new(chart_of(&[100, 102, 99]));
    assert_eq!(session.current_index, 0);
    assert_eq!(session.animation_timer_ms, 0);
    assert_eq!(session.current_texture_index, 0);
    assert_eq!(session.image_sequencer.bull_index, 0);
    assert_eq!(session.image_sequencer.bear_index, 0);
    assert_eq!(session.image_animation.scale_milli, 800);
    assert_eq!(session.image_animation.opacity_milli, 0);
    assert!(!session.should_return_home);
}

#[test]
fn three_day_replay_reports_both_moves() {
    // prices 100, 102, 99: up 2 percent, then down 300/102 of a percent;
    // the first move takes bullish image 0, the second bearish image 0
    let mut session = ChartSession::new(chart_of(&[100, 102, 99]));

    let first = session.tick(2000, false).unwrap();
    assert_eq!(first.pct_num, 200);
    assert_eq!(first.pct_den, 100);
    assert!(first.bullish);
    assert_eq!(first.image_index, 0);
    assert_eq!(first.freq_millihz, 220_000);
    assert_eq!(session.current_index, 1);
    assert_eq!(session.animation_timer_ms, 0);
    assert_eq!(session.image_sequencer.bull_index, 1);
    assert_eq!(session.image_sequencer.bear_index, 0);

    let second = session.tick(2000, false).unwrap();
    assert_eq!(second.pct_num, -300);
    assert_eq!(second.pct_den, 102);
    assert!(!second.bullish);
    assert_eq!(second.image_index, 0);
    assert_eq!(second.freq_millihz, 1_087_058);
    assert_eq!(session.current_index, 2);
    assert_eq!(session.image_sequencer.bear_index, 1);
}

#[test]
fn cursor_never_passes_the_last_day() {
    let mut session = ChartSession::new(chart_of(&[100, 102, 99]));
    assert!(session.tick(2000, false).is_some());
    assert!(session.tick(2000, false).is_some());
    for _ in 0..5 {
        assert!(session.tick(2000, false).is_none());
        assert_eq!(session.current_index, 2);
    }
}

#[test]
fn sounding_tone_suppresses_the_advance() {
    let mut session = ChartSession::new(chart_of(&[100, 102]));
    // the interval has passed, but a tone is still playing
    assert!(session.tick(2000, true).is_none());
    assert_eq!(session.current_index, 0);
    assert_eq!(session.animation_timer_ms, 2000);
    // the moment the tone ends, the accumulated time fires the step
    assert!(session.tick(0, false).is_some());
    assert_eq!(session.current_index, 1);
}

#[test]
fn interval_accumulates_across_frames() {
    let mut session = ChartSession::new(chart_of(&[100, 102]));
    assert!(session.tick(1000, false).is_none());
    assert_eq!(session.animation_timer_ms, 1000);
    assert!(session.tick(999, false).is_none());
    assert!(session.tick(1, false).is_some());
}

#[test]
fn tick_resets_the_entrance_animation() {
    let mut session = ChartSession::new(chart_of(&[100, 102, 99]));
    assert!(session.tick(1000, false).is_none());
    // a frame passed: the image has grown and faded in a little
    assert!(session.image_animation.scale_milli > 800);
    assert!(session.image_animation.opacity_milli > 0);
    assert!(session.tick(1000, false).is_some());
    assert_eq!(session.image_animation.scale_milli, 800);
    assert_eq!(session.image_animation.opacity_milli, 0);
    assert_eq!(session.point_progress_milli, 0);
}

#[test]
fn bull_counter_cycles_with_period_seven() {
    let mut seq = ImageSequencer::new();
    let picked: Vec<usize> = (0..8).map(|_| seq.get_next_bull_index()).collect();
    assert_eq!(picked, vec![0, 1, 2, 3, 4, 5, 6, 0]);
}

#[test]
fn bear_counter_cycles_with_period_four() {
    let mut seq = ImageSequencer::new();
    let picked: Vec<usize> = (0..5).map(|_| seq.get_next_bear_index()).collect();
    assert_eq!(picked, vec![0, 1, 2, 3, 0]);
}

#[test]
fn bull_and_bear_counters_advance_independently() {
    let mut seq = ImageSequencer::new();
    assert_eq!(seq.get_next_bull_index(), 0);
    assert_eq!(seq.get_next_bull_index(), 1);
    assert_eq!(seq.get_next_bear_index(), 0);
    assert_eq!(seq.bull_index, 2);
    assert_eq!(seq.get_next_bull_index(), 2);
    assert_eq!(seq.bear_index, 1);
}

#[test]
fn animation_eases_toward_full_size_and_opacity() {
    let mut anim = AnimatedImage::new();
    assert_eq!(anim.scale_milli, 800);
    assert_eq!(anim.opacity_milli, 0);
    // a 50 ms frame closes 8 * 50 = 400 thousandths of each gap
    anim.animate(50);
    assert_eq!(anim.scale_milli, 880);
    assert_eq!(anim.opacity_milli, 400);
    // a frame of an eighth of a second or more lands on the target
    anim.animate(125);
    assert_eq!(anim.scale_milli, 1000);
    assert_eq!(anim.opacity_milli, 1000);
    anim.reset();
    assert_eq!(anim.scale_milli, 800);
    assert_eq!(anim.opacity_milli, 0);
}

#[test]
fn animation_never_overshoots() {
    let mut anim = AnimatedImage::new();
    let mut last_scale = anim.scale_milli;
    let mut last_opacity = anim.opacity_milli;
    for _ in 0..200 {
        anim.animate(16);
        assert!(anim.scale_milli >= last_scale && anim.scale_milli <= 1000);
        assert!(anim.opacity_milli >= last_opacity && anim.opacity_milli <= 1000);
        last_scale = anim.scale_milli;
        last_opacity = anim.opacity_milli;
    }
}

#[test]
fn tone_pitch_encodes_the_move() {
    // +2 percent: 440 Hz / (1 + 1) = 220 Hz
    assert_eq!(tone_freq_millihz(100, 102), 220_000);
    // about -2.94 percent: 440 Hz * 504 / 204
    assert_eq!(tone_freq_millihz(102, 99), 1_087_058);
    // no move sounds the base pitch
    assert_eq!(tone_freq_millihz(100, 100), 440_000);
    // a fall always sounds above the base, a rise below it
    assert!(tone_freq_millihz(50, 1) > 440_000);
    assert!(tone_freq_millihz(1, 50) < 440_000);
}

#[test]
fn visible_points_follow_the_cursor() {
    let data = chart_of(&[100, 102, 99]);
    let early = visible_points(&data, 0);
    assert_eq!(early, vec![(0, 100)]);
    let all = visible_points(&data, 2);
    assert_eq!(all, vec![(0, 100), (2, 102), (4, 99)]);
    let flags = rise_flags(&all);
    assert_eq!(flags, vec![true, false]);
}

#[test]
fn display_direction_names_the_day_just_reached() {
    let mut session = ChartSession::new(chart_of(&[100, 102, 99]));
    assert!(session.display_direction().is_none());
    session.tick(2000, false);
    assert_eq!(session.display_direction(), Some(true));
    session.tick(2000, false);
    assert_eq!(session.display_direction(), Some(false));
}
