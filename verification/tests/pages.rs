use crypto_sonifier::daily::{ChartData, RawSample};
use crypto_sonifier::router::{loading_dots, Asset, LoadingState, Page, Router};

const DAY_MS: u64 = 86_400_000;

fn chart_of(prices: &[u64]) -> ChartData {
    let samples: Vec<RawSample> = prices
        .iter()
        .enumerate()
        .map(|(i, &price)| RawSample { timestamp_ms: (i as u64) * DAY_MS, price })
        .collect();
    ChartData::from_samples(&samples).unwrap()
}

#[test]
fn program_starts_on_the_selection_screen() {
    let router = Router::new();
    assert_eq!(router.current_page, Page::Selection);
    assert!(router.eth_chart.is_none());
    assert!(router.btc_chart.is_none());
    assert!(router.xrp_chart.is_none());
    assert_eq!(router.loading_state, LoadingState::NotLoading);
    assert!(!router.fetch_in_flight);
}

#[test]
fn clicking_an_asset_shows_the_loading_overlay() {
    let mut router = Router::new();
    router.start_fetch(Asset::Bitcoin);
    assert_eq!(router.current_page, Page::Selection);
    assert_eq!(router.loading_state, LoadingState::Loading(Asset::Bitcoin));
    assert!(router.fetch_in_flight);
}

#[test]
fn arriving_data_opens_the_chart_page() {
    let mut router = Router::new();
    router.start_fetch(Asset::Ethereum);
    router.deliver(Asset::Ethereum, chart_of(&[100, 102]));
    assert_eq!(router.current_page, Page::EthChart);
    assert_eq!(router.loading_state, LoadingState::NotLoading);
    assert!(!router.fetch_in_flight);
    let session = router.eth_chart.as_ref().unwrap();
    assert_eq!(session.current_index, 0);
    assert!(router.btc_chart.is_none());
    assert!(router.xrp_chart.is_none());
}

#[test]
fn leaving_a_chart_clears_its_session_and_reentry_is_fresh() {
    let mut router = Router::new();
    router.start_fetch(Asset::Ripple);
    router.deliver(Asset::Ripple, chart_of(&[100, 102, 99]));
    assert_eq!(router.current_page, Page::XrpChart);

    // play a little so the session is no longer idle
    {
        let session = router.xrp_chart.as_mut().unwrap();
        session.tick(2000, false);
        session.tick(2000, false);
        assert_eq!(session.current_index, 2);
        assert_eq!(session.image_sequencer.bull_index, 1);
    }

    router.return_home();
    assert_eq!(router.current_page, Page::Selection);
    assert!(router.xrp_chart.is_none());

    // picking the asset again starts from a fresh idle sequencer
    router.start_fetch(Asset::Ripple);
    router.deliver(Asset::Ripple, chart_of(&[100, 102, 99]));
    let session = router.xrp_chart.as_ref().unwrap();
    assert_eq!(session.current_index, 0);
    assert_eq!(session.animation_timer_ms, 0);
    assert_eq!(session.current_texture_index, 0);
    assert_eq!(session.image_sequencer.bull_index, 0);
    assert_eq!(session.image_sequencer.bear_index, 0);
    assert_eq!(session.image_animation.scale_milli, 800);
    assert_eq!(session.image_animation.opacity_milli, 0);
}

#[test]
fn loading_dots_cycle_every_half_second() {
    assert_eq!(loading_dots(0), 0);
    assert_eq!(loading_dots(499), 0);
    assert_eq!(loading_dots(500), 1);
    assert_eq!(loading_dots(1499), 2);
    assert_eq!(loading_dots(1999), 3);
    assert_eq!(loading_dots(2000), 0);
}
