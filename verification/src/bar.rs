//! The bar data model: one OHLCV observation and its derived trend.

use vstd::prelude::*;
use crate::price_ok;

verus! {

/// Direction of a single bar: `Bearish` when the bar closed below its open,
/// `Bullish` otherwise (a flat bar counts as `Bullish`).
#[derive(Clone, Copy, Debug, PartialEq, Eq, Structural)]
pub enum Trend {
    Bullish,
    Bearish,
}

/// One OHLCV observation. Prices are non-negative fixed-point integers at a
/// scale of the caller's choice; `timestamp` is the bar's event time as an
/// RFC 3339 string. Bars for one symbol form a sequence ordered by time.
#[derive(Clone, Debug, PartialEq)]
pub struct Bar {
    pub open: i64,
    pub close: i64,
    pub high: i64,
    pub low: i64,
    pub volume: i64,
    pub volume_weighted: i64,
    pub timestamp: String,
}

/// A bar is well formed when each of its four prices is admissible.
pub open spec fn bar_wf(b: Bar) -> bool {
    &&& price_ok(b.open)
    &&& price_ok(b.close)
    &&& price_ok(b.high)
    &&& price_ok(b.low)
}

/// Every bar of the series is well formed.
pub open spec fn series_wf(s: Seq<Bar>) -> bool {
    forall|i: int| 0 <= i < s.len() ==> bar_wf(#[trigger] s[i])
}

/// The trend rule: `Bearish` exactly when `open > close`; a tie resolves to
/// `Bullish`.
pub open spec fn trend_of(open: i64, close: i64) -> Trend {
    if open > close {
        Trend::Bearish
    } else {
        Trend::Bullish
    }
}

/// Derives the trend of one bar from its open and close prices.
pub fn bar_trend(b: &Bar) -> (t: Trend)
    ensures
        t == trend_of(b.open, b.close),
{
    if b.open > b.close {
        Trend::Bearish
    } else {
        Trend::Bullish
    }
}

} // verus!
