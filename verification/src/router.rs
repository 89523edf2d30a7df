//! The page router: the top-level state machine of the application.
//!
//! The user starts on a selection screen, picks one of three assets, waits
//! while its series is fetched in the background, watches that asset's chart
//! page, and goes back. The router owns the per-asset chart sessions; a
//! session exists only while its page can be shown, and leaving a chart page
//! discards the whole session, so re-entering starts playback from scratch.

use vstd::prelude::*;
use crate::daily::ChartData;
use crate::sequencer::{ChartSession, fresh_session};

verus! {

/// The three assets a chart can be opened for.
#[derive(Clone, Copy, PartialEq, Eq, Structural, Debug)]
pub enum Asset {
    Ethereum,
    Bitcoin,
    Ripple,
}

/// Which screen is showing.
#[derive(Clone, Copy, PartialEq, Eq, Structural, Debug)]
pub enum Page {
    Selection,
    EthChart,
    BtcChart,
    XrpChart,
}

/// The fetch overlay: nothing in flight, or one asset's series loading.
#[derive(Clone, Copy, PartialEq, Eq, Structural, Debug)]
pub enum LoadingState {
    NotLoading,
    Loading(Asset),
}

/// The chart page that shows `a`.
pub open spec fn chart_page(a: Asset) -> Page {
    match a {
        Asset::Ethereum => Page::EthChart,
        Asset::Bitcoin => Page::BtcChart,
        Asset::Ripple => Page::XrpChart,
    }
}

/// The asset a chart page shows; the selection screen shows none.
pub open spec fn page_asset(p: Page) -> Option<Asset> {
    match p {
        Page::Selection => None,
        Page::EthChart => Some(Asset::Ethereum),
        Page::BtcChart => Some(Asset::Bitcoin),
        Page::XrpChart => Some(Asset::Ripple),
    }
}

/// Top-level state: the visible page, one optional session per asset, and
/// the state of the background fetch. `fetch_in_flight` stands for the held
/// end of the worker thread's channel.
pub struct Router {
    pub current_page: Page,
    pub eth_chart: Option<ChartSession>,
    pub btc_chart: Option<ChartSession>,
    pub xrp_chart: Option<ChartSession>,
    pub loading_state: LoadingState,
    pub fetch_in_flight: bool,
}

/// The router after leaving `a`'s chart page: back on the selection screen
/// with `a`'s session discarded.
pub open spec fn cleared(r: Router, a: Asset) -> Router {
    match a {
        Asset::Ethereum => Router { current_page: Page::Selection, eth_chart: None, ..r },
        Asset::Bitcoin => Router { current_page: Page::Selection, btc_chart: None, ..r },
        Asset::Ripple => Router { current_page: Page::Selection, xrp_chart: None, ..r },
    }
}

/// The router after a fetched series for `a` arrived and session `s` was
/// installed: `a`'s chart page is showing and the loading overlay is gone.
pub open spec fn delivered(r: Router, a: Asset, s: ChartSession) -> Router {
    match a {
        Asset::Ethereum => Router {
            current_page: Page::EthChart,
            eth_chart: Some(s),
            loading_state: LoadingState::NotLoading,
            fetch_in_flight: false,
            ..r
        },
        Asset::Bitcoin => Router {
            current_page: Page::BtcChart,
            btc_chart: Some(s),
            loading_state: LoadingState::NotLoading,
            fetch_in_flight: false,
            ..r
        },
        Asset::Ripple => Router {
            current_page: Page::XrpChart,
            xrp_chart: Some(s),
            loading_state: LoadingState::NotLoading,
            fetch_in_flight: false,
            ..r
        },
    }
}

impl Router {
    /// The session slot of `a`.
    pub open spec fn session_of(self, a: Asset) -> Option<ChartSession> {
        match a {
            Asset::Ethereum => self.eth_chart,
            Asset::Bitcoin => self.btc_chart,
            Asset::Ripple => self.xrp_chart,
        }
    }

    /// Every session that exists is well formed, and a chart page is only
    /// showing while its session exists.
    pub open spec fn wf(self) -> bool {
        &&& (self.eth_chart matches Some(s) ==> s.wf())
        &&& (self.btc_chart matches Some(s) ==> s.wf())
        &&& (self.xrp_chart matches Some(s) ==> s.wf())
        &&& (page_asset(self.current_page) matches Some(a) ==> self.session_of(a) is Some)
    }

    /// The program starts on the selection screen with nothing fetched.
    pub fn new() -> (r: Self)
        ensures
            r.current_page == Page::Selection,
            r.eth_chart is None,
            r.btc_chart is None,
            r.xrp_chart is None,
            r.loading_state == LoadingState::NotLoading,
            !r.fetch_in_flight,
            r.wf(),
    {
        Self {
            current_page: Page::Selection,
            eth_chart: None,
            btc_chart: None,
            xrp_chart: None,
            loading_state: LoadingState::NotLoading,
            fetch_in_flight: false,
        }
    }

    /// The user clicked `asset` on the selection screen: a background fetch
    /// begins and the loading overlay names the asset. The screen does not
    /// change until the data arrives.
    pub fn start_fetch(&mut self, asset: Asset)
        requires
            old(self).wf(),
            old(self).current_page == Page::Selection,
        ensures
            final(self).wf(),
            *final(self) == (Router {
                loading_state: LoadingState::Loading(asset),
                fetch_in_flight: true,
                ..*old(self)
            }),
    {
        self.loading_state = LoadingState::Loading(asset);
        self.fetch_in_flight = true;
    }

    /// The background fetch for `asset` handed its series over: a fresh idle
    /// session over that series is installed and its chart page opens. Other
    /// assets' slots are untouched.
    #[verifier::rlimit(60)]
    pub fn deliver(&mut self, asset: Asset, data: ChartData)
        requires
            old(self).wf(),
            old(self).fetch_in_flight,
            data.wf(),
        ensures
            final(self).wf(),
            *final(self) == delivered(*old(self), asset, fresh_session(data)),
            final(self).session_of(asset) == Some(fresh_session(data)),
            fresh_session(data).fresh_for(data),
    {
        let session = ChartSession::new(data);
        match asset {
            Asset::Ethereum => {
                self.eth_chart = Some(session);
                self.current_page = Page::EthChart;
            },
            Asset::Bitcoin => {
                self.btc_chart = Some(session);
                self.current_page = Page::BtcChart;
            },
            Asset::Ripple => {
                self.xrp_chart = Some(session);
                self.current_page = Page::XrpChart;
            },
        }
        self.loading_state = LoadingState::NotLoading;
        self.fetch_in_flight = false;
    }

    /// The chart page asked to go back: the selection screen returns and the
    /// whole session of the page just left is discarded — cursor, timers,
    /// image cursors and animation alike.
    pub fn return_home(&mut self)
        requires
            old(self).wf(),
            page_asset(old(self).current_page) is Some,
        ensures
            final(self).wf(),
            *final(self) == cleared(*old(self), page_asset(old(self).current_page).unwrap()),
            final(self).current_page == Page::Selection,
            final(self).session_of(page_asset(old(self).current_page).unwrap()) is None,
    {
        match self.current_page {
            Page::Selection => {},
            Page::EthChart => {
                self.eth_chart = None;
            },
            Page::BtcChart => {
                self.btc_chart = None;
            },
            Page::XrpChart => {
                self.xrp_chart = None;
            },
        }
        self.current_page = Page::Selection;
    }
}

/// Number of dots in the loading overlay's "..." animation after `elapsed_ms`
/// milliseconds: one more every half second, cycling through zero to three.
pub fn loading_dots(elapsed_ms: u64) -> (r: u64)
    ensures
        r == (elapsed_ms / 500) % 4,
        r < 4,
{
    (elapsed_ms / 500) % 4
}

/// Law: leaving a chart page and picking the same asset again yields a chart
/// session with no memory of the earlier playback. Right after leaving, the
/// asset's slot is empty; when the newly fetched series arrives, the slot
/// holds exactly the idle session over it — cursor on the first day, no
/// accumulated time, image pools and animation at their start.
pub proof fn lemma_reentry_fresh(r: Router, a: Asset, d: ChartData)
    requires
        page_asset(r.current_page) == Some(a),
    ensures
        cleared(r, a).session_of(a) is None,
        delivered(cleared(r, a), a, fresh_session(d)).session_of(a) == Some(fresh_session(d)),
        fresh_session(d).fresh_for(d),
{
}

} // verus!
