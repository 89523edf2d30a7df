//! Preparing the visible part of the price chart.
//!
//! The plot shows the days up to the playback cursor, each day two units
//! apart on the x-axis, and colors each segment between consecutive points
//! by its direction: rising or flat segments one way, falling ones the
//! other. The renderer only turns the integer coordinates computed here into
//! screen floats.

use vstd::prelude::*;
use crate::daily::ChartData;

verus! {

/// The plotted points up to (and including) the cursor: day `i` becomes the
/// point `(2 * i, price of day i)`.
pub fn visible_points(data: &ChartData, current_index: usize) -> (r: Vec<(u64, u64)>)
    requires
        data.wf(),
        current_index < data.daily_prices@.len(),
    ensures
        r@.len() == current_index + 1,
        forall|i: int| 0 <= i <= current_index ==> (#[trigger] r@[i]).0 == 2 * i && r@[i].1
            == data.daily_prices@[i].price,
{
    let n = data.daily_prices.len();
    let mut r: Vec<(u64, u64)> = Vec::new();
    let mut i: usize = 0;
    while i <= current_index
        invariant
            current_index < n,
            n == data.daily_prices@.len(),
            data.wf(),
            current_index < data.daily_prices@.len(),
            i <= current_index + 1,
            r@.len() == i,
            forall|j: int| 0 <= j < i ==> (#[trigger] r@[j]).0 == 2 * j && r@[j].1
                == data.daily_prices@[j].price,
        decreases current_index + 1 - i,
    {
        let x = (i as u64) * 2;
        r.push((x, data.daily_prices[i].price));
        i += 1;
    }
    r
}

/// For each segment between consecutive visible points, whether it rises or
/// stays level (`true`) rather than falls (`false`): the chart draws the
/// former green and the latter red.
pub fn rise_flags(points: &Vec<(u64, u64)>) -> (r: Vec<bool>)
    ensures
        points@.len() == 0 ==> r@.len() == 0,
        points@.len() > 0 ==> r@.len() == points@.len() - 1,
        forall|i: int| 0 <= i < r@.len() ==> (#[trigger] r@[i] <==> points@[i].1 <= points@[i
            + 1].1),
{
    let mut r: Vec<bool> = Vec::new();
    if points.len() == 0 {
        return r;
    }
    let mut i: usize = 0;
    while i < points.len() - 1
        invariant
            points@.len() > 0,
            i <= points@.len() - 1,
            r@.len() == i,
            forall|j: int| 0 <= j < i ==> (#[trigger] r@[j] <==> points@[j].1 <= points@[j
                + 1].1),
        decreases points@.len() - 1 - i,
    {
        r.push(points[i].1 <= points[i + 1].1);
        i += 1;
    }
    r
}

} // verus!
