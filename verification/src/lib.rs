//! Enrichment of historical stock-price bars with technical indicators.
//!
//! The library consumes a time-ordered series of OHLCV bars for one symbol
//! and produces one enriched record per bar (except the last): the bar's raw
//! fields, a fixed set of windowed indicators (moving averages, RSI, rolling
//! high/low, Bollinger Bands), the bar's trend, and a forward-looking label
//! derived from the next bar. Prices are fixed-point integers; the scale is
//! the caller's choice and never enters the arithmetic.

use vstd::prelude::*;

pub mod bar;
pub mod cli;
pub mod enrich;
pub mod errors;
pub mod indicators;
pub mod profile;
pub mod timestamp;
pub mod watchlist;
pub mod window;

verus! {

/// Largest price value the indicator arithmetic accepts; sums and products
/// over windows of admissible prices stay inside `i64`/`i128`.
pub const PRICE_MAX: i64 = 1_000_000_000_000;

/// Largest admissible indicator window length.
pub const WINDOW_MAX: usize = 10_000;

/// Largest admissible Bollinger standard-deviation multiplier.
pub const MULT_MAX: u32 = 1_000;

/// A price is admissible when it is a non-negative fixed-point value no
/// larger than `PRICE_MAX`.
pub open spec fn price_ok(v: i64) -> bool {
    0 <= v <= PRICE_MAX
}

} // verus!
