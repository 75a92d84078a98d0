use stock_bars::errors::EnrichError;
use stock_bars::indicators::{
    bollinger, ema, isqrt, rolling_high, rolling_low, rsi, sma, BollingerBands,
};

#[test]
fn test_sma_is_mean() {
    assert_eq!(sma(&vec![2, 4, 6]), 4);
    assert_eq!(sma(&vec![7]), 7);
}

#[test]
fn test_sma_truncates_toward_zero() {
    assert_eq!(sma(&vec![1, 2]), 1);
    assert_eq!(sma(&vec![10, 11, 11]), 10);
}

#[test]
fn test_ema_constant_window_is_fixed_point() {
    assert_eq!(ema(&vec![42, 42, 42, 42, 42], 5), Ok(42));
    assert_eq!(ema(&vec![42, 42, 42], 7), Ok(42));
}

#[test]
fn test_ema_exact_value() {
    // seed = (10 + 20) / 2 = 15; (2*10 + 15)/3 = 11; (2*20 + 11)/3 = 17
    assert_eq!(ema(&vec![10, 20], 2), Ok(17));
}

#[test]
fn test_ema_zero_period_fails() {
    assert_eq!(ema(&vec![10, 20], 0), Err(EnrichError::Computation));
}

#[test]
fn test_ema_empty_window_fails() {
    assert_eq!(ema(&vec![], 5), Err(EnrichError::Computation));
}

#[test]
fn test_rsi_strictly_increasing_is_100() {
    assert_eq!(rsi(&vec![1, 2, 5, 9]), 100);
}

#[test]
fn test_rsi_strictly_decreasing_is_0() {
    assert_eq!(rsi(&vec![9, 5, 2, 1]), 0);
}

#[test]
fn test_rsi_exact_value() {
    // gains 2, losses 1: 100 * 2 / 3 = 66
    assert_eq!(rsi(&vec![10, 12, 11]), 66);
}

#[test]
fn test_rsi_single_value_window_is_100() {
    // No differences at all: the no-losses convention applies.
    assert_eq!(rsi(&vec![5]), 100);
}

#[test]
fn test_rolling_high_and_low() {
    assert_eq!(rolling_high(&vec![3, 9, 1]), 9);
    assert_eq!(rolling_low(&vec![3, 9, 1]), 1);
    assert_eq!(rolling_high(&vec![4]), 4);
    assert_eq!(rolling_low(&vec![4]), 4);
}

#[test]
fn test_bollinger_exact_and_symmetric() {
    // mean 15; deviations 25 + 25; sample variance 50; isqrt 7; k = 14
    let b = bollinger(&vec![10, 20], 2, 2).unwrap();
    assert_eq!(b, BollingerBands { top: 29, mid: 15, bottom: 1 });
    assert_eq!(b.top - b.mid, b.mid - b.bottom);
}

#[test]
fn test_bollinger_constant_window_collapses() {
    let b = bollinger(&vec![10, 10, 10, 10], 4, 2).unwrap();
    assert_eq!(b, BollingerBands { top: 10, mid: 10, bottom: 10 });
}

#[test]
fn test_bollinger_mismatched_period_fails() {
    assert_eq!(bollinger(&vec![10, 20, 30], 4, 2), Err(EnrichError::Computation));
    assert_eq!(bollinger(&vec![], 0, 2), Err(EnrichError::Computation));
}

#[test]
fn test_isqrt_values() {
    assert_eq!(isqrt(0), 0);
    assert_eq!(isqrt(15), 3);
    assert_eq!(isqrt(16), 4);
    assert_eq!(isqrt(50), 7);
    assert_eq!(isqrt(1_000_000_000_000_000_000_000_000), 1_000_000_000_000);
}
