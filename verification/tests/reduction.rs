use crypto_sonifier::daily::{ChartData, RawSample};

const DAY_MS: u64 = 86_400_000;

fn sample(timestamp_ms: u64, price: u64) -> RawSample {
    RawSample { timestamp_ms, price }
}

#[test]
fn same_day_collapses_to_first_sample() {
    // two samples on the same calendar day with different prices: only the
    // earlier one's price survives
    let samples = vec![sample(0, 100), sample(3_600_000, 200)];
    let data = ChartData::from_samples(&samples).unwrap();
    assert_eq!(data.daily_prices.len(), 1);
    assert_eq!(data.daily_prices[0].day, 0);
    assert_eq!(data.daily_prices[0].price, 100);
    assert_eq!(data.daily_prices[0].date, "1970-01-01");
}

#[test]
fn reduction_keeps_one_entry_per_day_in_order() {
    let samples = vec![
        sample(0, 10),
        sample(1_000, 11),
        sample(DAY_MS, 20),
        sample(DAY_MS + 5_000, 21),
        sample(DAY_MS + 6_000, 22),
        sample(2 * DAY_MS + 123, 30),
    ];
    let data = ChartData::from_samples(&samples).unwrap();
    let days: Vec<u64> = data.daily_prices.iter().map(|d| d.day).collect();
    let prices: Vec<u64> = data.daily_prices.iter().map(|d| d.price).collect();
    assert_eq!(days, vec![0, 1, 2]);
    assert_eq!(prices, vec![10, 20, 30]);
    let dates: Vec<&str> = data.daily_prices.iter().map(|d| d.date.as_str()).collect();
    assert_eq!(dates, vec!["1970-01-01", "1970-01-02", "1970-01-03"]);
}

#[test]
fn date_label_comes_from_the_calendar() {
    // a modern timestamp must get a real calendar label, not an echo of the
    // raw number
    let samples = vec![sample(1_700_000_000_000, 2_000_000_000)];
    let data = ChartData::from_samples(&samples).unwrap();
    assert_eq!(data.daily_prices[0].day, 19675);
    assert_eq!(data.daily_prices[0].date, "2023-11-14");
}

#[test]
fn empty_input_yields_no_chart() {
    let samples: Vec<RawSample> = Vec::new();
    assert!(ChartData::from_samples(&samples).is_none());
}

#[test]
fn zero_price_yields_no_chart() {
    let samples = vec![sample(0, 100), sample(DAY_MS, 0)];
    assert!(ChartData::from_samples(&samples).is_none());
}

#[test]
fn regressing_days_yield_no_chart() {
    let samples = vec![sample(DAY_MS, 100), sample(0, 100)];
    assert!(ChartData::from_samples(&samples).is_none());
}

#[test]
fn same_day_resurfacing_later_yields_no_chart() {
    // day 5, day 3, day 5 again: the consecutive check keeps all three, so
    // the days are out of order and the series is refused
    let samples = vec![sample(5 * DAY_MS, 1), sample(3 * DAY_MS, 2), sample(5 * DAY_MS + 7, 3)];
    assert!(ChartData::from_samples(&samples).is_none());
}
