//! Round-robin selection of reaction images.
//!
//! Two independent counters walk the bullish pool (7 images) and the bearish
//! pool (4 images). A counter advances only when its own direction is chosen,
//! so every image of a pool is shown once before any repeat.

use vstd::prelude::*;

verus! {

/// Number of images in the bullish pool.
pub const BULL_POOL_SIZE: usize = 7;

/// Number of images in the bearish pool.
pub const BEAR_POOL_SIZE: usize = 4;

/// Cursors into the two reaction-image pools.
pub struct ImageSequencer {
    pub bull_index: usize,
    pub bear_index: usize,
}

/// The sequencer state after one bullish selection.
pub open spec fn advance_bull(s: ImageSequencer) -> ImageSequencer {
    ImageSequencer { bull_index: ((s.bull_index + 1) % (BULL_POOL_SIZE as int)) as usize, ..s }
}

/// The sequencer state after one bearish selection.
pub open spec fn advance_bear(s: ImageSequencer) -> ImageSequencer {
    ImageSequencer { bear_index: ((s.bear_index + 1) % (BEAR_POOL_SIZE as int)) as usize, ..s }
}

/// The sequencer state after `n` bullish selections in a row.
pub open spec fn advance_bull_n(s: ImageSequencer, n: nat) -> ImageSequencer
    decreases n,
{
    if n == 0 {
        s
    } else {
        advance_bull(advance_bull_n(s, (n - 1) as nat))
    }
}

/// The sequencer state after `n` bearish selections in a row.
pub open spec fn advance_bear_n(s: ImageSequencer, n: nat) -> ImageSequencer
    decreases n,
{
    if n == 0 {
        s
    } else {
        advance_bear(advance_bear_n(s, (n - 1) as nat))
    }
}

impl ImageSequencer {
    /// Both counters are inside their pools.
    pub open spec fn wf(self) -> bool {
        self.bull_index < BULL_POOL_SIZE && self.bear_index < BEAR_POOL_SIZE
    }

    /// A fresh sequencer starts both pools at their first image.
    pub fn new() -> (r: Self)
        ensures
            r.bull_index == 0,
            r.bear_index == 0,
            r.wf(),
    {
        Self { bull_index: 0, bear_index: 0 }
    }

    /// Returns the bullish image to show now and moves that pool's cursor one
    /// step, wrapping after the last image. The bearish cursor is untouched.
    pub fn get_next_bull_index(&mut self) -> (r: usize)
        requires
            old(self).wf(),
        ensures
            r == old(self).bull_index,
            r < BULL_POOL_SIZE,
            *final(self) == advance_bull(*old(self)),
            final(self).wf(),
    {
        let index = self.bull_index;
        self.bull_index = (self.bull_index + 1) % 7;
        index
    }

    /// Returns the bearish image to show now and moves that pool's cursor one
    /// step, wrapping after the last image. The bullish cursor is untouched.
    pub fn get_next_bear_index(&mut self) -> (r: usize)
        requires
            old(self).wf(),
        ensures
            r == old(self).bear_index,
            r < BEAR_POOL_SIZE,
            *final(self) == advance_bear(*old(self)),
            final(self).wf(),
    {
        let index = self.bear_index;
        self.bear_index = (self.bear_index + 1) % 4;
        index
    }
}

/// Law: a run of `n` bullish selections moves the bullish counter `n` steps
/// around its pool and never touches the bearish counter.
pub proof fn lemma_bull_cycle(s: ImageSequencer, n: nat)
    requires
        s.wf(),
    ensures
        advance_bull_n(s, n).bull_index == (s.bull_index + n) % (BULL_POOL_SIZE as int),
        advance_bull_n(s, n).bear_index == s.bear_index,
    decreases n,
{
    if n > 0 {
        lemma_bull_cycle(s, (n - 1) as nat);
    }
}

/// Law: the bullish counter cycles with period `BULL_POOL_SIZE`: after that
/// many bullish selections the sequencer is back where it started.
pub proof fn lemma_bull_period(s: ImageSequencer)
    requires
        s.wf(),
    ensures
        advance_bull_n(s, BULL_POOL_SIZE as nat) == s,
{
    lemma_bull_cycle(s, BULL_POOL_SIZE as nat);
}

/// Law: a run of `n` bearish selections moves the bearish counter `n` steps
/// around its pool and never touches the bullish counter.
pub proof fn lemma_bear_cycle(s: ImageSequencer, n: nat)
    requires
        s.wf(),
    ensures
        advance_bear_n(s, n).bear_index == (s.bear_index + n) % (BEAR_POOL_SIZE as int),
        advance_bear_n(s, n).bull_index == s.bull_index,
    decreases n,
{
    if n > 0 {
        lemma_bear_cycle(s, (n - 1) as nat);
    }
}

/// Law: the bearish counter cycles with period `BEAR_POOL_SIZE`: after that
/// many bearish selections the sequencer is back where it started.
pub proof fn lemma_bear_period(s: ImageSequencer)
    requires
        s.wf(),
    ensures
        advance_bear_n(s, BEAR_POOL_SIZE as nat) == s,
{
    lemma_bear_cycle(s, BEAR_POOL_SIZE as nat);
}

} // verus!
