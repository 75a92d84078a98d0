use stock_bars::bar::{Bar, Trend};
use stock_bars::enrich::enrich_series;
use stock_bars::errors::EnrichError;
use stock_bars::profile::{
    daily_profile, fifteen_minute_profile, hourly_profile, weekly_profile, GranularityProfile,
    IndicatorKind, IndicatorSpec,
};

fn bar(open: i64, close: i64, high: i64, low: i64, timestamp: &str) -> Bar {
    Bar {
        open,
        close,
        high,
        low,
        volume: 1000,
        volume_weighted: (open + close) / 2,
        timestamp: timestamp.to_string(),
    }
}

fn simple_series(n: usize) -> Vec<Bar> {
    (0..n)
        .map(|i| {
            let p = 100 + i as i64;
            bar(
                p,
                p + 1,
                p + 2,
                p - 1,
                &format!("2024-01-{:02}T10:00:00Z", i + 1),
            )
        })
        .collect()
}

#[test]
fn test_series_of_k_bars_yields_k_minus_one_records() {
    let profile = weekly_profile();
    assert_eq!(enrich_series(&simple_series(3), &profile).unwrap().len(), 2);
    assert_eq!(enrich_series(&simple_series(12), &profile).unwrap().len(), 11);
    assert_eq!(enrich_series(&simple_series(1), &profile).unwrap().len(), 0);
    assert_eq!(enrich_series(&simple_series(0), &profile).unwrap().len(), 0);
}

#[test]
fn test_three_bar_scenario() {
    // (o=10,c=12,T0), (o=12,c=11,T1), (o=11,c=13,T2)
    let series = vec![
        bar(10, 12, 13, 9, "2024-01-01T10:00:00Z"),
        bar(12, 11, 13, 10, "2024-01-02T10:00:00Z"),
        bar(11, 13, 14, 10, "2024-01-03T10:00:00Z"),
    ];
    let recs = enrich_series(&series, &weekly_profile()).unwrap();
    assert_eq!(recs.len(), 2);
    let r0 = &recs[0];
    assert_eq!(r0.bar_trend, Trend::Bullish); // 10 > 12 is false
    assert_eq!(r0.buy_or_sell, 0); // next close 11 is not above 12
    assert_eq!(r0.next_period_price, 11);
    assert_eq!(r0.next_period_trend, Trend::Bearish); // 12 > 11
    let r1 = &recs[1];
    assert_eq!(r1.bar_trend, Trend::Bearish); // 12 > 11
    assert_eq!(r1.buy_or_sell, 1); // next close 13 above 11
    assert_eq!(r1.next_period_price, 13);
    assert_eq!(r1.next_period_trend, Trend::Bullish); // 11 > 13 is false
}

#[test]
fn test_flat_move_labels_zero_and_tie_is_bullish() {
    let series = vec![
        bar(10, 10, 11, 9, "2024-01-01T10:00:00Z"),
        bar(10, 10, 11, 9, "2024-01-02T10:00:00Z"),
    ];
    let recs = enrich_series(&series, &weekly_profile()).unwrap();
    assert_eq!(recs[0].buy_or_sell, 0); // flat move is not a buy
    assert_eq!(recs[0].bar_trend, Trend::Bullish); // open == close resolves to Bullish
}

#[test]
fn test_insufficient_history_is_absent_then_present() {
    // Weekly profile entry 5 is the five-week rolling high.
    let series = simple_series(8);
    let recs = enrich_series(&series, &weekly_profile()).unwrap();
    for (i, rec) in recs.iter().enumerate() {
        for (j, spec_window) in [10usize, 10, 10, 10, 10, 5, 5].iter().enumerate() {
            if i < *spec_window {
                assert_eq!(rec.indicators[j], None, "record {} indicator {}", i, j);
            } else {
                assert!(rec.indicators[j].is_some(), "record {} indicator {}", i, j);
            }
        }
    }
    // Five-week high of bars 0..5: highs are 102..=106, window ends before bar 5.
    assert_eq!(recs[5].indicators[5], Some(106));
    // Five-week low at the same index: lows are 99..=103.
    assert_eq!(recs[5].indicators[6], Some(99));
}

#[test]
fn test_indicators_align_with_profile_order() {
    // 11 bars: at record index 10 every weekly indicator is present.
    let series = simple_series(12);
    let recs = enrich_series(&series, &weekly_profile()).unwrap();
    let r = &recs[10];
    // Closes of bars 0..10 are 101..=110: SMA = 1055 / 10 = 105 (truncated).
    assert_eq!(r.indicators[0], Some(105));
    // Strictly increasing closes: RSI 100.
    assert_eq!(r.indicators[2], Some(100));
    // Ten-week high of highs 102..=111, low of lows 99..=108.
    assert_eq!(r.indicators[3], Some(111));
    assert_eq!(r.indicators[4], Some(99));
    // Weekly profile has no Bollinger Bands.
    assert_eq!(r.bollinger, None);
}

#[test]
fn test_bollinger_presence_in_hourly_enrichment() {
    let series = simple_series(15);
    let recs = enrich_series(&series, &hourly_profile()).unwrap();
    assert_eq!(recs.len(), 14);
    // The hourly Bollinger period is 13: absent before index 13.
    assert_eq!(recs[12].bollinger, None);
    let b = recs[13].bollinger.expect("bands due at index 13");
    // Closes of bars 0..13 are 101..=113: SMA = 1391 / 13 = 107.
    assert_eq!(b.mid, 107);
    assert_eq!(b.top - b.mid, b.mid - b.bottom);
}

#[test]
fn test_daily_profile_carries_previous_trend() {
    let series = vec![
        bar(10, 12, 13, 9, "2024-01-01T10:00:00Z"),
        bar(12, 11, 13, 10, "2024-01-02T10:00:00Z"),
        bar(11, 13, 14, 10, "2024-01-03T10:00:00Z"),
    ];
    let recs = enrich_series(&series, &daily_profile()).unwrap();
    assert_eq!(recs[0].previous_period_trend, None);
    assert_eq!(recs[1].previous_period_trend, Some(Trend::Bullish));
    // Profiles without the flag never carry it.
    let recs = enrich_series(&series, &fifteen_minute_profile()).unwrap();
    assert_eq!(recs[0].previous_period_trend, None);
    assert_eq!(recs[1].previous_period_trend, None);
}

#[test]
fn test_timestamps_normalised_to_utc() {
    let series = vec![
        bar(10, 12, 13, 9, "2016-01-04T09:30:00-05:00"),
        bar(12, 11, 13, 10, "2016-01-05T09:30:00-05:00"),
    ];
    let recs = enrich_series(&series, &weekly_profile()).unwrap();
    assert_eq!(recs[0].event_datetime, "2016-01-04 14:30:00");
    assert_eq!(recs[0].event_unix_millis, 1_451_917_800_000);
    assert_eq!(recs[0].next_period_event_datetime, "2016-01-05 14:30:00");
    assert_eq!(recs[0].next_period_unix_millis, 1_452_004_200_000);
}

#[test]
fn test_malformed_timestamp_aborts_symbol() {
    let series = vec![
        bar(10, 12, 13, 9, "2024-01-01T10:00:00Z"),
        bar(12, 11, 13, 10, "not a timestamp"),
    ];
    assert_eq!(
        enrich_series(&series, &weekly_profile()),
        Err(EnrichError::MalformedTimestamp)
    );
}

#[test]
fn test_invalid_profile_aborts_with_computation_error() {
    let profile = GranularityProfile {
        indicators: vec![IndicatorSpec { kind: IndicatorKind::Ema, window: 10, period: 0 }],
        ..weekly_profile()
    };
    assert_eq!(
        enrich_series(&simple_series(3), &profile),
        Err(EnrichError::Computation)
    );
}

#[test]
fn test_round_trip_is_byte_identical() {
    let series = simple_series(20);
    let profile = daily_profile();
    let first = enrich_series(&series, &profile).unwrap();
    let second = enrich_series(&series, &profile).unwrap();
    assert_eq!(first, second);
}
