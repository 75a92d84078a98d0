//! Granularity profiles: the configuration table that maps each supported
//! bar granularity to its set of indicator specifications.
//!
//! Adding a granularity means adding a profile, not new enrichment code.

use vstd::prelude::*;
use crate::{MULT_MAX, WINDOW_MAX};

verus! {

/// A supported bar granularity.
#[derive(Clone, Copy, Debug, PartialEq, Eq, Structural)]
pub enum Granularity {
    /// Weekly bars (the store keeps them in its monthly table).
    Weekly,
    Daily,
    Hourly,
    FifteenMinute,
}

/// An indicator family computed over a trailing window.
#[derive(Clone, Copy, Debug, PartialEq, Eq, Structural)]
pub enum IndicatorKind {
    Sma,
    Ema,
    Rsi,
    RollingHigh,
    RollingLow,
}

/// One indicator to compute: its family, its window length, and — for the
/// exponential moving average only — its smoothing period. For every other
/// family `period` is ignored and held at zero.
#[derive(Clone, Copy, Debug, PartialEq, Eq, Structural)]
pub struct IndicatorSpec {
    pub kind: IndicatorKind,
    pub window: usize,
    pub period: usize,
}

/// The Bollinger Band configuration: window length (which must equal the
/// band period) and the standard-deviation multiplier.
#[derive(Clone, Copy, Debug, PartialEq, Eq, Structural)]
pub struct BollingerSpec {
    pub period: usize,
    pub multiplier: u32,
}

/// The full configuration for one granularity: the indicator set, the
/// optional Bollinger Bands, and whether records carry the previous
/// period's trend (the daily schema does).
#[derive(Clone, Debug)]
pub struct GranularityProfile {
    pub granularity: Granularity,
    pub indicators: Vec<IndicatorSpec>,
    pub bollinger: Option<BollingerSpec>,
    pub with_previous_trend: bool,
}

/// An indicator specification is valid when its window is non-empty and
/// bounded, and an EMA's period likewise.
pub open spec fn indicator_spec_valid(s: IndicatorSpec) -> bool {
    &&& 1 <= s.window <= WINDOW_MAX
    &&& (s.kind is Ema ==> 1 <= s.period <= WINDOW_MAX)
}

/// A Bollinger specification is valid when its period is non-empty and
/// bounded and its multiplier is bounded.
pub open spec fn bollinger_spec_valid(b: BollingerSpec) -> bool {
    &&& 1 <= b.period <= WINDOW_MAX
    &&& b.multiplier <= MULT_MAX
}

/// A profile is valid when every indicator specification is, and the
/// Bollinger configuration is, where present.
pub open spec fn profile_valid(p: GranularityProfile) -> bool {
    &&& forall|j: int|
        0 <= j < p.indicators@.len() ==> indicator_spec_valid(#[trigger] p.indicators@[j])
    &&& (p.bollinger matches Some(b) ==> bollinger_spec_valid(b))
}

/// Checks a profile's validity; invalid parameters make enrichment fail
/// with a computation error.
pub fn profile_is_valid(p: &GranularityProfile) -> (r: bool)
    ensures
        r == profile_valid(*p),
{
    let mut j: usize = 0;
    while j < p.indicators.len()
        invariant
            j <= p.indicators@.len(),
            forall|k: int| 0 <= k < j ==> indicator_spec_valid(#[trigger] p.indicators@[k]),
        decreases p.indicators@.len() - j,
    {
        let s = p.indicators[j];
        let window_fits = 1 <= s.window && s.window <= WINDOW_MAX;
        let period_fits = match s.kind {
            IndicatorKind::Ema => 1 <= s.period && s.period <= WINDOW_MAX,
            _ => true,
        };
        if !window_fits || !period_fits {
            return false;
        }
        j += 1;
    }
    match &p.bollinger {
        Option::Some(b) => 1 <= b.period && b.period <= WINDOW_MAX && b.multiplier <= MULT_MAX,
        Option::None => true,
    }
}

/// The weekly indicator set: ten-week SMA, EMA and RSI on closes, and
/// ten- and five-week rolling highs and lows.
pub open spec fn weekly_indicator_specs() -> Seq<IndicatorSpec> {
    seq![
        IndicatorSpec { kind: IndicatorKind::Sma, window: 10, period: 0 },
        IndicatorSpec { kind: IndicatorKind::Ema, window: 10, period: 10 },
        IndicatorSpec { kind: IndicatorKind::Rsi, window: 10, period: 0 },
        IndicatorSpec { kind: IndicatorKind::RollingHigh, window: 10, period: 0 },
        IndicatorSpec { kind: IndicatorKind::RollingLow, window: 10, period: 0 },
        IndicatorSpec { kind: IndicatorKind::RollingHigh, window: 5, period: 0 },
        IndicatorSpec { kind: IndicatorKind::RollingLow, window: 5, period: 0 },
    ]
}

/// The daily indicator set: SMA and EMA at 100, 50, 20 and 9 days, rolling
/// highs and lows at 100, 50 and 10 days, and a fourteen-day RSI.
pub open spec fn daily_indicator_specs() -> Seq<IndicatorSpec> {
    seq![
        IndicatorSpec { kind: IndicatorKind::Sma, window: 100, period: 0 },
        IndicatorSpec { kind: IndicatorKind::Ema, window: 100, period: 100 },
        IndicatorSpec { kind: IndicatorKind::Sma, window: 50, period: 0 },
        IndicatorSpec { kind: IndicatorKind::Ema, window: 50, period: 50 },
        IndicatorSpec { kind: IndicatorKind::Sma, window: 20, period: 0 },
        IndicatorSpec { kind: IndicatorKind::Ema, window: 20, period: 20 },
        IndicatorSpec { kind: IndicatorKind::Sma, window: 9, period: 0 },
        IndicatorSpec { kind: IndicatorKind::Ema, window: 9, period: 9 },
        IndicatorSpec { kind: IndicatorKind::RollingHigh, window: 100, period: 0 },
        IndicatorSpec { kind: IndicatorKind::RollingLow, window: 100, period: 0 },
        IndicatorSpec { kind: IndicatorKind::RollingHigh, window: 50, period: 0 },
        IndicatorSpec { kind: IndicatorKind::RollingLow, window: 50, period: 0 },
        IndicatorSpec { kind: IndicatorKind::RollingHigh, window: 10, period: 0 },
        IndicatorSpec { kind: IndicatorKind::RollingLow, window: 10, period: 0 },
        IndicatorSpec { kind: IndicatorKind::Rsi, window: 14, period: 0 },
    ]
}

/// The intraday indicator set shared by the hourly and fifteen-minute
/// granularities: SMAs at 5, 8 and 13 periods, a twenty-period EMA, a
/// nine-period RSI, and rolling highs and lows at 20, 8 and 5 periods.
pub open spec fn intraday_indicator_specs() -> Seq<IndicatorSpec> {
    seq![
        IndicatorSpec { kind: IndicatorKind::Sma, window: 5, period: 0 },
        IndicatorSpec { kind: IndicatorKind::Sma, window: 8, period: 0 },
        IndicatorSpec { kind: IndicatorKind::Sma, window: 13, period: 0 },
        IndicatorSpec { kind: IndicatorKind::Ema, window: 20, period: 20 },
        IndicatorSpec { kind: IndicatorKind::Rsi, window: 9, period: 0 },
        IndicatorSpec { kind: IndicatorKind::RollingHigh, window: 20, period: 0 },
        IndicatorSpec { kind: IndicatorKind::RollingLow, window: 20, period: 0 },
        IndicatorSpec { kind: IndicatorKind::RollingHigh, window: 8, period: 0 },
        IndicatorSpec { kind: IndicatorKind::RollingLow, window: 8, period: 0 },
        IndicatorSpec { kind: IndicatorKind::RollingHigh, window: 5, period: 0 },
        IndicatorSpec { kind: IndicatorKind::RollingLow, window: 5, period: 0 },
    ]
}

/// Builds one indicator specification.
fn spec_entry(kind: IndicatorKind, window: usize, period: usize) -> (s: IndicatorSpec)
    ensures
        s == (IndicatorSpec { kind, window, period }),
{
    IndicatorSpec { kind, window, period }
}

/// The weekly profile: no Bollinger Bands, no previous-period trend.
pub fn weekly_profile() -> (p: GranularityProfile)
    ensures
        p.granularity == Granularity::Weekly,
        p.indicators@ == weekly_indicator_specs(),
        p.bollinger is None,
        !p.with_previous_trend,
        profile_valid(p),
{
    let mut v: Vec<IndicatorSpec> = Vec::new();
    v.push(spec_entry(IndicatorKind::Sma, 10, 0));
    v.push(spec_entry(IndicatorKind::Ema, 10, 10));
    v.push(spec_entry(IndicatorKind::Rsi, 10, 0));
    v.push(spec_entry(IndicatorKind::RollingHigh, 10, 0));
    v.push(spec_entry(IndicatorKind::RollingLow, 10, 0));
    v.push(spec_entry(IndicatorKind::RollingHigh, 5, 0));
    v.push(spec_entry(IndicatorKind::RollingLow, 5, 0));
    proof {
        assert(v@ =~= weekly_indicator_specs());
    }
    GranularityProfile {
        granularity: Granularity::Weekly,
        indicators: v,
        bollinger: Option::None,
        with_previous_trend: false,
    }
}

/// The daily profile: twenty-day Bollinger Bands at two standard
/// deviations, and the previous period's trend recorded.
pub fn daily_profile() -> (p: GranularityProfile)
    ensures
        p.granularity == Granularity::Daily,
        p.indicators@ == daily_indicator_specs(),
        p.bollinger == Some(BollingerSpec { period: 20, multiplier: 2 }),
        p.with_previous_trend,
        profile_valid(p),
{
    let mut v: Vec<IndicatorSpec> = Vec::new();
    v.push(spec_entry(IndicatorKind::Sma, 100, 0));
    v.push(spec_entry(IndicatorKind::Ema, 100, 100));
    v.push(spec_entry(IndicatorKind::Sma, 50, 0));
    v.push(spec_entry(IndicatorKind::Ema, 50, 50));
    v.push(spec_entry(IndicatorKind::Sma, 20, 0));
    v.push(spec_entry(IndicatorKind::Ema, 20, 20));
    v.push(spec_entry(IndicatorKind::Sma, 9, 0));
    v.push(spec_entry(IndicatorKind::Ema, 9, 9));
    v.push(spec_entry(IndicatorKind::RollingHigh, 100, 0));
    v.push(spec_entry(IndicatorKind::RollingLow, 100, 0));
    v.push(spec_entry(IndicatorKind::RollingHigh, 50, 0));
    v.push(spec_entry(IndicatorKind::RollingLow, 50, 0));
    v.push(spec_entry(IndicatorKind::RollingHigh, 10, 0));
    v.push(spec_entry(IndicatorKind::RollingLow, 10, 0));
    v.push(spec_entry(IndicatorKind::Rsi, 14, 0));
    proof {
        assert(v@ =~= daily_indicator_specs());
    }
    GranularityProfile {
        granularity: Granularity::Daily,
        indicators: v,
        bollinger: Option::Some(BollingerSpec { period: 20, multiplier: 2 }),
        with_previous_trend: true,
    }
}

/// The intraday indicator vector shared by the hourly and fifteen-minute
/// profiles.
fn intraday_indicators() -> (v: Vec<IndicatorSpec>)
    ensures
        v@ == intraday_indicator_specs(),
{
    let mut v: Vec<IndicatorSpec> = Vec::new();
    v.push(spec_entry(IndicatorKind::Sma, 5, 0));
    v.push(spec_entry(IndicatorKind::Sma, 8, 0));
    v.push(spec_entry(IndicatorKind::Sma, 13, 0));
    v.push(spec_entry(IndicatorKind::Ema, 20, 20));
    v.push(spec_entry(IndicatorKind::Rsi, 9, 0));
    v.push(spec_entry(IndicatorKind::RollingHigh, 20, 0));
    v.push(spec_entry(IndicatorKind::RollingLow, 20, 0));
    v.push(spec_entry(IndicatorKind::RollingHigh, 8, 0));
    v.push(spec_entry(IndicatorKind::RollingLow, 8, 0));
    v.push(spec_entry(IndicatorKind::RollingHigh, 5, 0));
    v.push(spec_entry(IndicatorKind::RollingLow, 5, 0));
    proof {
        assert(v@ =~= intraday_indicator_specs());
    }
    v
}

/// The hourly profile: thirteen-period Bollinger Bands at three standard
/// deviations.
pub fn hourly_profile() -> (p: GranularityProfile)
    ensures
        p.granularity == Granularity::Hourly,
        p.indicators@ == intraday_indicator_specs(),
        p.bollinger == Some(BollingerSpec { period: 13, multiplier: 3 }),
        !p.with_previous_trend,
        profile_valid(p),
{
    GranularityProfile {
        granularity: Granularity::Hourly,
        indicators: intraday_indicators(),
        bollinger: Option::Some(BollingerSpec { period: 13, multiplier: 3 }),
        with_previous_trend: false,
    }
}

/// The fifteen-minute profile: the intraday indicator set with
/// thirteen-period Bollinger Bands at three standard deviations.
pub fn fifteen_minute_profile() -> (p: GranularityProfile)
    ensures
        p.granularity == Granularity::FifteenMinute,
        p.indicators@ == intraday_indicator_specs(),
        p.bollinger == Some(BollingerSpec { period: 13, multiplier: 3 }),
        !p.with_previous_trend,
        profile_valid(p),
{
    GranularityProfile {
        granularity: Granularity::FifteenMinute,
        indicators: intraday_indicators(),
        bollinger: Option::Some(BollingerSpec { period: 13, multiplier: 3 }),
        with_previous_trend: false,
    }
}

} // verus!
