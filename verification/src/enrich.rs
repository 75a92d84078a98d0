//! The bar enricher: one pass over a symbol's series that derives every
//! configured indicator, the bar's trend, and the forward-looking label.

use vstd::prelude::*;
use crate::bar::{bar_trend, bar_wf, series_wf, trend_of, Bar, Trend};
use crate::errors::EnrichError;
use crate::indicators::{
    bollinger, bollinger_spec, ema, ema_spec, max_of, min_of, rolling_high, rolling_low, rsi,
    rsi_spec, sma, sma_spec, BollingerBands,
};
use crate::profile::{
    profile_is_valid, profile_valid, BollingerSpec, GranularityProfile, IndicatorKind,
    IndicatorSpec,
};
use crate::timestamp::{format_timestamp_utc, ts_parse_ok, ts_sqlite_text, ts_unix_millis};
use crate::window::{field_of, window, window_spec, PriceField};

verus! {

/// One enriched record: the bar's raw fields, its timestamp normalised to
/// UTC (as text and as Unix-epoch milliseconds), its trend, every configured
/// indicator over the trailing window ending just before the bar, and the
/// forward label taken from the next bar. Indicators with insufficient
/// history are absent (`None`), never coerced to zero.
#[derive(Debug, PartialEq)]
pub struct EnrichedRecord {
    pub event_datetime: String,
    pub event_unix_millis: i64,
    pub open: i64,
    pub close: i64,
    pub high: i64,
    pub low: i64,
    pub volume: i64,
    pub volume_weighted: i64,
    pub bar_trend: Trend,
    /// `1` when the next bar closes strictly above this bar, else `0`.
    pub buy_or_sell: i32,
    pub next_period_price: i64,
    pub next_period_trend: Trend,
    pub next_period_unix_millis: i64,
    pub next_period_event_datetime: String,
    /// The previous bar's trend, carried only by profiles that ask for it
    /// and absent for the first bar.
    pub previous_period_trend: Option<Trend>,
    /// One value per entry of the profile's indicator list, in order.
    pub indicators: Vec<Option<i64>>,
    pub bollinger: Option<BollingerBands>,
}

/// The price field each indicator family draws on.
pub open spec fn field_of_kind(k: IndicatorKind) -> PriceField {
    match k {
        IndicatorKind::Sma => PriceField::Close,
        IndicatorKind::Ema => PriceField::Close,
        IndicatorKind::Rsi => PriceField::Close,
        IndicatorKind::RollingHigh => PriceField::High,
        IndicatorKind::RollingLow => PriceField::Low,
    }
}

/// The value of one configured indicator at bar `i`: absent when fewer than
/// `window` bars precede `i`, else the indicator over the trailing window.
pub open spec fn indicator_value(s: Seq<Bar>, sp: IndicatorSpec, i: int) -> Option<i64> {
    match window_spec(s, i, sp.window as int, field_of_kind(sp.kind)) {
        Option::None => Option::None,
        Option::Some(w) => Option::Some(
            match sp.kind {
                IndicatorKind::Sma => sma_spec(w) as i64,
                IndicatorKind::Ema => ema_spec(w, sp.period as int) as i64,
                IndicatorKind::Rsi => rsi_spec(w) as i64,
                IndicatorKind::RollingHigh => max_of(w),
                IndicatorKind::RollingLow => min_of(w),
            },
        ),
    }
}

/// The Bollinger Bands at bar `i`: absent when the profile has none or the
/// history is too short, else the bands over the trailing close window.
pub open spec fn bollinger_value(s: Seq<Bar>, b: Option<BollingerSpec>, i: int) -> Option<
    BollingerBands,
> {
    match b {
        Option::None => Option::None,
        Option::Some(bs) => match window_spec(s, i, bs.period as int, PriceField::Close) {
            Option::None => Option::None,
            Option::Some(w) => Option::Some(bollinger_spec(w, bs.multiplier)),
        },
    }
}

/// An indicator's presence depends on the index alone: it is absent exactly
/// while fewer bars than its window length precede the bar, and becomes a
/// real value from index `window` on.
pub proof fn lemma_indicator_presence(s: Seq<Bar>, sp: IndicatorSpec, i: int)
    ensures
        indicator_value(s, sp, i) is Some <==> i >= sp.window,
{
}

/// The Bollinger Bands' presence likewise depends on the index alone: they
/// are present exactly when the profile configures them and at least
/// `period` bars precede the bar.
pub proof fn lemma_bollinger_presence(s: Seq<Bar>, b: Option<BollingerSpec>, i: int)
    ensures
        bollinger_value(s, b, i) is Some <==> (b matches Some(bs) && i >= bs.period),
{
}

/// What one enriched record must hold for bar `i` of the series, under the
/// given profile. This pins every field of the record.
pub open spec fn record_matches(
    s: Seq<Bar>,
    p: GranularityProfile,
    i: int,
    r: EnrichedRecord,
) -> bool
    recommends
        0 <= i < s.len() - 1,
{
    &&& r.open == s[i].open
    &&& r.close == s[i].close
    &&& r.high == s[i].high
    &&& r.low == s[i].low
    &&& r.volume == s[i].volume
    &&& r.volume_weighted == s[i].volume_weighted
    &&& r.event_datetime@ == ts_sqlite_text(s[i].timestamp@)
    &&& r.event_unix_millis == ts_unix_millis(s[i].timestamp@)
    &&& r.bar_trend == trend_of(s[i].open, s[i].close)
    &&& r.buy_or_sell == (if s[i + 1].close > s[i].close {
        1i32
    } else {
        0i32
    })
    &&& r.next_period_price == s[i + 1].close
    &&& r.next_period_trend == trend_of(s[i + 1].open, s[i + 1].close)
    &&& r.next_period_event_datetime@ == ts_sqlite_text(s[i + 1].timestamp@)
    &&& r.next_period_unix_millis == ts_unix_millis(s[i + 1].timestamp@)
    &&& r.previous_period_trend == (if p.with_previous_trend && i >= 1 {
        Option::Some(trend_of(s[i - 1].open, s[i - 1].close))
    } else {
        Option::<Trend>::None
    })
    &&& r.indicators@.len() == p.indicators@.len()
    &&& (forall|j: int|
        0 <= j < p.indicators@.len() ==> r.indicators@[j] == indicator_value(
            s,
            #[trigger] p.indicators@[j],
            i,
        ))
    &&& r.bollinger == bollinger_value(s, p.bollinger, i)
}

/// Every bar's timestamp parses as RFC 3339.
pub open spec fn all_timestamps_parse(s: Seq<Bar>) -> bool {
    forall|i: int| 0 <= i < s.len() ==> ts_parse_ok(#[trigger] s[i].timestamp@)
}

/// When enrichment succeeds: the profile is valid, and — as soon as there
/// is anything to enrich — every timestamp parses.
pub open spec fn enrich_ok(s: Seq<Bar>, p: GranularityProfile) -> bool {
    &&& profile_valid(p)
    &&& (s.len() >= 2 ==> all_timestamps_parse(s))
}

/// How many records a series yields: one per bar except the last, which has
/// no successor to label against.
pub open spec fn record_count(s: Seq<Bar>) -> int {
    if s.len() == 0 {
        0
    } else {
        s.len() - 1
    }
}

/// Computes the profile's indicator values for bar `i`.
fn indicator_values_at(series: &Vec<Bar>, profile: &GranularityProfile, i: usize) -> (vals: Vec<
    Option<i64>,
>)
    requires
        series_wf(series@),
        profile_valid(*profile),
        i < series@.len(),
    ensures
        vals@.len() == profile.indicators@.len(),
        forall|j: int|
            0 <= j < vals@.len() ==> vals@[j] == indicator_value(
                series@,
                #[trigger] profile.indicators@[j],
                i as int,
            ),
{
    let mut vals: Vec<Option<i64>> = Vec::new();
    let mut j: usize = 0;
    while j < profile.indicators.len()
        invariant
            series_wf(series@),
            profile_valid(*profile),
            i < series@.len(),
            j <= profile.indicators@.len(),
            vals@.len() == j,
            forall|k: int|
                0 <= k < j ==> vals@[k] == indicator_value(
                    series@,
                    #[trigger] profile.indicators@[k],
                    i as int,
                ),
        decreases profile.indicators@.len() - j,
    {
        let sp = profile.indicators[j];
        let f = match sp.kind {
            IndicatorKind::Sma => PriceField::Close,
            IndicatorKind::Ema => PriceField::Close,
            IndicatorKind::Rsi => PriceField::Close,
            IndicatorKind::RollingHigh => PriceField::High,
            IndicatorKind::RollingLow => PriceField::Low,
        };
        let v: Option<i64> = match window(series, i, sp.window, f) {
            Option::None => Option::None,
            Option::Some(w) => {
                proof {
                    lemma_window_values_admissible(series@, i as int, sp.window as int, f);
                }
                Option::Some(
                    match sp.kind {
                        IndicatorKind::Sma => sma(&w),
                        IndicatorKind::Ema => match ema(&w, sp.period) {
                            Result::Ok(v) => v,
                            Result::Err(_) => {
                                proof {
                                    assert(false);
                                }
                                0
                            },
                        },
                        IndicatorKind::Rsi => rsi(&w),
                        IndicatorKind::RollingHigh => rolling_high(&w),
                        IndicatorKind::RollingLow => rolling_low(&w),
                    },
                )
            },
        };
        vals.push(v);
        j += 1;
    }
    vals
}

/// The values of a window drawn from a well-formed series are admissible.
proof fn lemma_window_values_admissible(s: Seq<Bar>, end: int, length: int, f: PriceField)
    requires
        series_wf(s),
        0 <= length <= end <= s.len(),
    ensures
        window_spec(s, end, length, f) matches Some(w) ==> (forall|k: int|
            0 <= k < w.len() ==> crate::price_ok(#[trigger] w[k])) && w.len() == length,
{
    let w = window_spec(s, end, length, f)->Some_0;
    assert forall|k: int| 0 <= k < w.len() implies crate::price_ok(#[trigger] w[k]) by {
        assert(w[k] == field_of(s[end - length + k], f));
        assert(bar_wf(s[end - length + k]));
    }
}

/// Computes the profile's Bollinger Bands for bar `i`.
fn bollinger_at(series: &Vec<Bar>, profile: &GranularityProfile, i: usize) -> (b: Option<
    BollingerBands,
>)
    requires
        series_wf(series@),
        profile_valid(*profile),
        i < series@.len(),
    ensures
        b == bollinger_value(series@, profile.bollinger, i as int),
{
    match &profile.bollinger {
        Option::None => Option::None,
        Option::Some(bs) => {
            match window(series, i, bs.period, PriceField::Close) {
                Option::None => Option::None,
                Option::Some(w) => {
                    proof {
                        lemma_window_values_admissible(
                            series@,
                            i as int,
                            bs.period as int,
                            PriceField::Close,
                        );
                    }
                    match bollinger(&w, bs.period, bs.multiplier) {
                        Result::Ok(b) => Option::Some(b),
                        Result::Err(_) => {
                            proof {
                                assert(false);
                            }
                            Option::None
                        },
                    }
                },
            }
        },
    }
}

/// Builds the enriched record for bar `i`, which must have a successor.
/// Fails exactly when the bar's or its successor's timestamp does not parse.
fn build_record(series: &Vec<Bar>, profile: &GranularityProfile, i: usize) -> (r: Result<
    EnrichedRecord,
    EnrichError,
>)
    requires
        series_wf(series@),
        profile_valid(*profile),
        i + 1 < series@.len(),
    ensures
        r is Ok <==> ts_parse_ok(series@[i as int].timestamp@) && ts_parse_ok(
            series@[i + 1].timestamp@,
        ),
        r matches Ok(rec) ==> record_matches(series@, *profile, i as int, rec),
        r matches Err(e) ==> e == EnrichError::MalformedTimestamp,
{
    proof {
        assert(series@.len() == series.len());
    }
    let cur = &series[i];
    let next = &series[i + 1];
    let (event_datetime, event_unix_millis) = match format_timestamp_utc(cur.timestamp.as_str()) {
        Option::Some(p) => p,
        Option::None => {
            return Result::Err(EnrichError::MalformedTimestamp);
        },
    };
    let (next_period_event_datetime, next_period_unix_millis) = match format_timestamp_utc(
        next.timestamp.as_str(),
    ) {
        Option::Some(p) => p,
        Option::None => {
            return Result::Err(EnrichError::MalformedTimestamp);
        },
    };
    let indicators = indicator_values_at(series, profile, i);
    let bands = bollinger_at(series, profile, i);
    let previous_period_trend: Option<Trend> = if profile.with_previous_trend && i >= 1 {
        Option::Some(bar_trend(&series[i - 1]))
    } else {
        Option::None
    };
    let buy_or_sell: i32 = if next.close > cur.close {
        1
    } else {
        0
    };
    Result::Ok(
        EnrichedRecord {
            event_datetime,
            event_unix_millis,
            open: cur.open,
            close: cur.close,
            high: cur.high,
            low: cur.low,
            volume: cur.volume,
            volume_weighted: cur.volume_weighted,
            bar_trend: bar_trend(cur),
            buy_or_sell,
            next_period_price: next.close,
            next_period_trend: bar_trend(next),
            next_period_unix_millis,
            next_period_event_datetime,
            previous_period_trend,
            indicators,
            bollinger: bands,
        },
    )
}

/// Enriches a symbol's bar series under the given profile.
///
/// One record is emitted per bar in series order, except for the last bar,
/// which has no successor to label against: a series of length `k` yields
/// exactly `k - 1` records (and an empty series none). Every record is
/// pinned by [`record_matches`]. Fails with a computation error exactly
/// when the profile is invalid, and with a malformed-timestamp error
/// exactly when the profile is valid, there is something to enrich, and
/// some bar's timestamp does not parse; on failure no records are handed
/// out at all.
pub fn enrich_series(series: &Vec<Bar>, profile: &GranularityProfile) -> (r: Result<
    Vec<EnrichedRecord>,
    EnrichError,
>)
    requires
        series_wf(series@),
    ensures
        r is Ok <==> enrich_ok(series@, *profile),
        r matches Ok(recs) ==> recs@.len() == record_count(series@) && (forall|i: int|
            0 <= i < recs@.len() ==> record_matches(series@, *profile, i, #[trigger] recs@[i])),
        r matches Err(e) ==> (e is Computation <==> !profile_valid(*profile)),
        r matches Err(e) ==> (e is MalformedTimestamp <==> profile_valid(*profile)
            && !all_timestamps_parse(series@) && series@.len() >= 2),
{
    if !profile_is_valid(profile) {
        return Result::Err(EnrichError::Computation);
    }
    let mut recs: Vec<EnrichedRecord> = Vec::new();
    if series.len() <= 1 {
        return Result::Ok(recs);
    }
    let mut i: usize = 0;
    let end = series.len() - 1;
    while i < end
        invariant
            series_wf(series@),
            profile_valid(*profile),
            series@.len() >= 2,
            end == series@.len() - 1,
            i <= end,
            recs@.len() == i,
            forall|k: int|
                0 <= k < i ==> record_matches(series@, *profile, k, #[trigger] recs@[k]),
            i == 0 || (forall|k: int|
                0 <= k <= i ==> ts_parse_ok(#[trigger] series@[k].timestamp@)),
        decreases end - i,
    {
        match build_record(series, profile, i) {
            Result::Ok(rec) => {
                recs.push(rec);
            },
            Result::Err(e) => {
                proof {
                    assert(!ts_parse_ok(series@[i as int].timestamp@) || !ts_parse_ok(
                        series@[i + 1].timestamp@,
                    ));
                    assert(!all_timestamps_parse(series@));
                }
                return Result::Err(e);
            },
        }
        i += 1;
    }
    proof {
        assert(all_timestamps_parse(series@));
    }
    Result::Ok(recs)
}

/// Two enriched records agree on every field (strings compared by their
/// characters).
pub open spec fn records_equivalent(a: EnrichedRecord, b: EnrichedRecord) -> bool {
    &&& a.event_datetime@ == b.event_datetime@
    &&& a.event_unix_millis == b.event_unix_millis
    &&& a.open == b.open
    &&& a.close == b.close
    &&& a.high == b.high
    &&& a.low == b.low
    &&& a.volume == b.volume
    &&& a.volume_weighted == b.volume_weighted
    &&& a.bar_trend == b.bar_trend
    &&& a.buy_or_sell == b.buy_or_sell
    &&& a.next_period_price == b.next_period_price
    &&& a.next_period_trend == b.next_period_trend
    &&& a.next_period_unix_millis == b.next_period_unix_millis
    &&& a.next_period_event_datetime@ == b.next_period_event_datetime@
    &&& a.previous_period_trend == b.previous_period_trend
    &&& a.indicators@ == b.indicators@
    &&& a.bollinger == b.bollinger
}

/// Enrichment is deterministic: for one series and one profile, any two
/// record sequences that satisfy the enrichment relation agree everywhere,
/// so feeding the same input twice yields identical output.
pub proof fn lemma_enrichment_deterministic(
    s: Seq<Bar>,
    p: GranularityProfile,
    r1: Seq<EnrichedRecord>,
    r2: Seq<EnrichedRecord>,
)
    requires
        r1.len() == record_count(s),
        r2.len() == record_count(s),
        forall|i: int| 0 <= i < r1.len() ==> record_matches(s, p, i, #[trigger] r1[i]),
        forall|i: int| 0 <= i < r2.len() ==> record_matches(s, p, i, #[trigger] r2[i]),
    ensures
        r1.len() == r2.len(),
        forall|i: int| 0 <= i < r1.len() ==> records_equivalent(#[trigger] r1[i], r2[i]),
{
    assert forall|i: int| 0 <= i < r1.len() implies records_equivalent(
        #[trigger] r1[i],
        r2[i],
    ) by {
        assert(record_matches(s, p, i, r1[i]));
        assert(record_matches(s, p, i, r2[i]));
        assert forall|j: int| 0 <= j < r1[i].indicators@.len() implies r1[i].indicators@[j]
            == r2[i].indicators@[j] by {
            assert(r1[i].indicators@[j] == indicator_value(s, p.indicators@[j], i));
            assert(r2[i].indicators@[j] == indicator_value(s, p.indicators@[j], i));
        }
        assert(r1[i].indicators@ =~= r2[i].indicators@);
    }
}

} // verus!
