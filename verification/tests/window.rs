use stock_bars::bar::Bar;
use stock_bars::window::{window, PriceField};

fn bar(open: i64, close: i64, high: i64, low: i64) -> Bar {
    Bar {
        open,
        close,
        high,
        low,
        volume: 0,
        volume_weighted: 0,
        timestamp: "2024-01-01T00:00:00Z".to_string(),
    }
}

#[test]
fn test_window_signals_insufficient_history() {
    let series = vec![bar(1, 2, 3, 0), bar(2, 3, 4, 1)];
    assert_eq!(window(&series, 0, 1, PriceField::Close), None);
    assert_eq!(window(&series, 1, 2, PriceField::Close), None);
    assert_eq!(window(&series, 2, 3, PriceField::Close), None);
}

#[test]
fn test_window_excludes_the_current_bar() {
    let series = vec![bar(1, 10, 3, 0), bar(2, 20, 4, 1), bar(3, 30, 5, 2)];
    // The window ending at index 2 holds the closes of bars 0 and 1 only.
    assert_eq!(window(&series, 2, 2, PriceField::Close), Some(vec![10, 20]));
    assert_eq!(window(&series, 2, 1, PriceField::Close), Some(vec![20]));
    assert_eq!(window(&series, 3, 3, PriceField::High), Some(vec![3, 4, 5]));
    assert_eq!(window(&series, 3, 2, PriceField::Low), Some(vec![1, 2]));
    // A zero-length window exists everywhere.
    assert_eq!(window(&series, 0, 0, PriceField::Close), Some(vec![]));
}
