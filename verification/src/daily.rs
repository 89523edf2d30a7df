//! Collapsing raw (timestamp, price) samples into one price per calendar day.
//!
//! The upstream market API answers with many samples per day. Playback wants
//! one closing price per day: the first sample seen for each distinct day is
//! kept, later same-day samples are dropped. Days are counted in whole UTC
//! days since the Unix epoch; prices are fixed-point integers in whatever
//! sub-unit the caller chose (the application uses micro-USD).

use vstd::prelude::*;
use vstd::arithmetic::div_mod::lemma_div_denominator;

verus! {

/// Milliseconds in one UTC calendar day.
pub const MS_PER_DAY: u64 = 86_400_000;

/// Largest second count this library hands to chrono when labelling a day.
/// chrono's `DateTime::from_timestamp` returns `Some` for every non-negative
/// second count up to its date limit in year 262142; this bound (year 255421)
/// stays safely inside it.
pub const MAX_FORMAT_SECS: u64 = 8_000_000_000_000;

/// Largest sample timestamp the reduction accepts, in milliseconds: the
/// second count derived from it must stay within `MAX_FORMAT_SECS`.
pub const MAX_SAMPLE_MS: u64 = 8_000_000_000_000_000;

/// One raw sample from the upstream API: a millisecond UTC timestamp and a
/// fixed-point price.
#[derive(Clone, Copy)]
pub struct RawSample {
    pub timestamp_ms: u64,
    pub price: u64,
}

/// The UTC calendar day a sample falls on, as whole days since the epoch.
pub open spec fn sample_day(s: RawSample) -> int {
    s.timestamp_ms as int / (MS_PER_DAY as int)
}

/// The calendar-day label ("YYYY-MM-DD") of a day number. What the label
/// spells out is chrono's business; the library only relies on it being a
/// function of the day number.
pub uninterp spec fn day_label(day: int) -> Seq<char>;

/// Relies on chrono's `DateTime::<Utc>::from_timestamp` and its
/// `format("%Y-%m-%d")`: the formatted UTC date depends only on which
/// calendar day the second count falls on, and `from_timestamp` returns
/// `Some` for every second count up to `MAX_FORMAT_SECS` (chrono's own date
/// range ends far later).
#[verifier::external_body]
fn format_day_of_secs(secs: u64) -> (r: String)
    requires
        secs <= MAX_FORMAT_SECS,
    ensures
        r@ == day_label(secs as int / 86_400),
{
    match chrono::DateTime::<chrono::Utc>::from_timestamp(secs as i64, 0) {
        Some(dt) => dt.format("%Y-%m-%d").to_string(),
        None => String::new(),
    }
}

/// One kept entry of the reduced series: its day number, that day's label,
/// and the first price sampled on that day.
pub struct DailyPrice {
    pub day: u64,
    pub date: String,
    pub price: u64,
}

/// `d` records exactly the sample `s`.
pub open spec fn daily_matches(d: DailyPrice, s: RawSample) -> bool {
    &&& d.day == sample_day(s)
    &&& d.date@ == day_label(sample_day(s))
    &&& d.price == s.price
}

/// `ds` records exactly the samples `ks`, in order.
pub open spec fn daily_seq_matches(ds: Seq<DailyPrice>, ks: Seq<RawSample>) -> bool {
    &&& ds.len() == ks.len()
    &&& forall|i: int| 0 <= i < ks.len() ==> daily_matches(#[trigger] ds[i], ks[i])
}

/// The samples the reduction keeps: a sample stays unless it falls on the
/// same calendar day as the sample kept just before it.
pub open spec fn kept_samples(s: Seq<RawSample>) -> Seq<RawSample>
    decreases s.len(),
{
    if s.len() == 0 {
        Seq::empty()
    } else {
        let prefix = kept_samples(s.drop_last());
        if prefix.len() > 0 && sample_day(prefix.last()) == sample_day(s.last()) {
            prefix
        } else {
            prefix.push(s.last())
        }
    }
}

/// No sample before position `j` falls on the same calendar day as `s[j]`.
pub open spec fn is_first_of_day(s: Seq<RawSample>, j: int) -> bool {
    forall|m: int| 0 <= m < j ==> sample_day(#[trigger] s[m]) != sample_day(s[j])
}

/// The whole raw series is ordered by calendar day.
pub open spec fn day_ordered(s: Seq<RawSample>) -> bool {
    forall|i: int, j: int| 0 <= i <= j < s.len()
        ==> sample_day(#[trigger] s[i]) <= sample_day(#[trigger] s[j])
}

/// Law: on a day-ordered raw series, the reduction yields at most one entry
/// per calendar day, in strictly ascending day order; each kept sample is the
/// first sample of its day, and no sampled day is lost. (On a series whose
/// days regress the reduction only drops same-day runs, so the law holds of
/// ordered series alone.)
#[verifier::rlimit(100)]
pub proof fn lemma_daily_reduction(s: Seq<RawSample>)
    requires
        day_ordered(s),
    ensures
        kept_samples(s).len() > 0 <==> s.len() > 0,
        s.len() > 0 ==> sample_day(kept_samples(s).last()) == sample_day(s.last()),
        forall|i: int, j: int| 0 <= i < j < kept_samples(s).len()
            ==> sample_day(#[trigger] kept_samples(s)[i]) < sample_day(#[trigger] kept_samples(s)[j]),
        forall|i: int|
            #![trigger kept_samples(s)[i]]
            0 <= i < kept_samples(s).len() ==> exists|j: int|
                0 <= j < s.len() && kept_samples(s)[i] == #[trigger] s[j] && is_first_of_day(s, j),
        forall|j: int|
            #![trigger s[j]]
            0 <= j < s.len() ==> exists|i: int|
                0 <= i < kept_samples(s).len()
                    && sample_day(#[trigger] kept_samples(s)[i]) == sample_day(s[j]),
    decreases s.len(),
{
    if s.len() > 0 {
        let p = s.drop_last();
        let x = s.last();
        let kp = kept_samples(p);
        let k = kept_samples(s);
        assert(forall|i: int| 0 <= i < p.len() ==> #[trigger] p[i] == s[i]);
        assert(day_ordered(p));
        lemma_daily_reduction(p);
        // a first-of-day position within the prefix stays one in the whole
        assert forall|j: int| 0 <= j < p.len() && is_first_of_day(p, j) implies is_first_of_day(
            s,
            j,
        ) by {
            assert(forall|m: int| 0 <= m < j ==> #[trigger] s[m] == p[m]);
        }
        if kp.len() > 0 && sample_day(kp.last()) == sample_day(x) {
            assert(k == kp);
            assert forall|j: int| #![trigger s[j]] 0 <= j < s.len() implies exists|i: int|
                0 <= i < k.len() && sample_day(#[trigger] k[i]) == sample_day(s[j]) by {
                if j < p.len() {
                    assert(exists|i: int|
                        0 <= i < kp.len() && sample_day(#[trigger] kp[i]) == sample_day(p[j]));
                } else {
                    assert(sample_day(k[k.len() - 1]) == sample_day(s[j]));
                }
            }
        } else {
            assert(k == kp.push(x));
            assert(k.last() == x);
            assert(forall|i: int| 0 <= i < kp.len() ==> #[trigger] k[i] == kp[i]);
            // every earlier kept day lies strictly below the new one
            assert forall|i: int| 0 <= i < kp.len() implies sample_day(#[trigger] kp[i])
                < sample_day(x) by {
                assert(p.len() > 0);
                if i < kp.len() - 1 {
                    assert(sample_day(kp[i]) < sample_day(kp[kp.len() - 1]));
                }
                assert(sample_day(kp.last()) == sample_day(p.last()));
                assert(sample_day(p[p.len() - 1]) <= sample_day(s[s.len() - 1]));
            }
            // the new sample is the first of its day
            assert forall|m: int| 0 <= m < s.len() - 1 implies sample_day(#[trigger] s[m])
                != sample_day(x) by {
                assert(sample_day(s[m]) <= sample_day(s[p.len() - 1]));
                assert(sample_day(kp.last()) == sample_day(p.last()));
            }
            assert(is_first_of_day(s, s.len() - 1));
            assert forall|i: int| #![trigger k[i]] 0 <= i < k.len() implies exists|j: int|
                0 <= j < s.len() && k[i] == #[trigger] s[j] && is_first_of_day(s, j) by {
                if i < kp.len() {
                    let jw = choose|jw: int|
                        0 <= jw < p.len() && kp[i] == p[jw] && is_first_of_day(p, jw);
                    assert(k[i] == s[jw] && is_first_of_day(s, jw));
                } else {
                    assert(k[i] == s[s.len() - 1] && is_first_of_day(s, s.len() - 1));
                }
            }
            assert forall|j: int| #![trigger s[j]] 0 <= j < s.len() implies exists|i: int|
                0 <= i < k.len() && sample_day(#[trigger] k[i]) == sample_day(s[j]) by {
                if j < p.len() {
                    let iw = choose|iw: int|
                        0 <= iw < kp.len() && sample_day(kp[iw]) == sample_day(p[j]);
                    assert(sample_day(k[iw]) == sample_day(s[j]));
                } else {
                    assert(sample_day(k[k.len() - 1]) == sample_day(s[j]));
                }
            }
        }
    }
}

/// A raw series makes a playable chart when the reduction keeps at least one
/// sample, the kept days strictly ascend, and every kept price is positive
/// (percent changes divide by the prices).
pub open spec fn valid_series(s: Seq<RawSample>) -> bool {
    let k = kept_samples(s);
    &&& k.len() > 0
    &&& forall|i: int| 0 <= i && i + 1 < k.len() ==> sample_day(#[trigger] k[i]) < sample_day(k[i + 1])
    &&& forall|i: int| 0 <= i < k.len() ==> (#[trigger] k[i]).price > 0
}

/// The reduction never keeps more samples than it was given.
proof fn lemma_kept_len(s: Seq<RawSample>)
    ensures
        kept_samples(s).len() <= s.len(),
    decreases s.len(),
{
    if s.len() > 0 {
        lemma_kept_len(s.drop_last());
    }
}

/// The daily series of one chart session.
pub struct ChartData {
    pub daily_prices: Vec<DailyPrice>,
}

impl ChartData {
    /// The series is non-empty, strictly ascending by day, positively priced,
    /// correctly labelled, and short enough for the plot's x-coordinates.
    pub open spec fn wf(self) -> bool {
        let ds = self.daily_prices@;
        &&& ds.len() > 0
        &&& ds.len() < 0x4000_0000_0000_0000
        &&& forall|i: int| 0 <= i && i + 1 < ds.len() ==> (#[trigger] ds[i]).day < ds[i + 1].day
        &&& forall|i: int| 0 <= i < ds.len() ==> (#[trigger] ds[i]).price > 0
        &&& forall|i: int| 0 <= i < ds.len() ==> (#[trigger] ds[i]).date@ == day_label(ds[i].day as int)
    }

    /// Reduces a raw series to daily prices: the first sample of each
    /// calendar day is kept, later same-day samples are dropped. Returns
    /// `None` exactly when the kept samples make no playable chart (empty
    /// input, days out of order, or a price of zero); otherwise the result
    /// records the kept samples one for one.
    #[verifier::rlimit(60)]
    pub fn from_samples(samples: &Vec<RawSample>) -> (r: Option<ChartData>)
        requires
            // a longer series could not exist in memory, and the plot doubles indices
            samples@.len() < 0x4000_0000_0000_0000,
            forall|i: int| 0 <= i < samples@.len() ==> (#[trigger] samples@[i]).timestamp_ms <= MAX_SAMPLE_MS,
        ensures
            match r {
                Some(c) => {
                    &&& c.wf()
                    &&& daily_seq_matches(c.daily_prices@, kept_samples(samples@))
                    &&& valid_series(samples@)
                },
                None => !valid_series(samples@),
            },
    {
        let ghost all = samples@;
        let mut out: Vec<DailyPrice> = Vec::new();
        let mut i: usize = 0;
        while i < samples.len()
            invariant
                i <= samples@.len(),
                samples@.len() < 0x4000_0000_0000_0000,
                forall|j: int| 0 <= j < samples@.len() ==> (#[trigger] samples@[j]).timestamp_ms <= MAX_SAMPLE_MS,
                daily_seq_matches(out@, kept_samples(samples@.take(i as int))),
            decreases samples@.len() - i,
        {
            let s = samples[i];
            let day = s.timestamp_ms / MS_PER_DAY;
            proof {
                assert(samples@.take(i + 1).drop_last() =~= samples@.take(i as int));
                assert(samples@.take(i + 1).last() == samples@[i as int]);
                lemma_div_denominator(s.timestamp_ms as int, 1000, 86_400);
            }
            if out.len() == 0 || out[out.len() - 1].day != day {
                let date = format_day_of_secs(s.timestamp_ms / 1000);
                out.push(DailyPrice { day, date, price: s.price });
            }
            i += 1;
        }
        proof {
            assert(samples@.take(samples@.len() as int) =~= samples@);
            lemma_kept_len(samples@);
        }
        let ghost kept = kept_samples(all);
        if out.len() == 0 {
            return None;
        }
        // check that the kept days strictly ascend and the prices are positive
        let mut ok = out[0].price > 0;
        let mut j: usize = 1;
        while j < out.len()
            invariant
                1 <= j <= out@.len(),
                ok <==> {
                    &&& forall|m: int| 0 <= m && m + 1 < j ==> (#[trigger] out@[m]).day < out@[m + 1].day
                    &&& forall|m: int| 0 <= m < j ==> (#[trigger] out@[m]).price > 0
                },
            decreases out@.len() - j,
        {
            ok = ok && out[j - 1].day < out[j].day && out[j].price > 0;
            j += 1;
        }
        if ok {
            proof {
                assert forall|m: int| 0 <= m && m + 1 < kept.len() implies sample_day(
                    #[trigger] kept[m],
                ) < sample_day(kept[m + 1]) by {
                    assert(daily_matches(out@[m], kept[m]));
                    assert(daily_matches(out@[m + 1], kept[m + 1]));
                }
                assert forall|m: int| 0 <= m < kept.len() implies (#[trigger] kept[m]).price > 0 by {
                    assert(daily_matches(out@[m], kept[m]));
                }
            }
            Some(ChartData { daily_prices: out })
        } else {
            None
        }
    }
}

} // verus!
