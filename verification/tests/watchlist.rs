use std::collections::HashSet;
use stock_bars::watchlist::{finance_sector, get_all_unique_stock_symbols, tech_sector};

#[test]
fn test_get_all_unique_stock_symbols() {
    let symbols = get_all_unique_stock_symbols();
    // Every symbol appears exactly once.
    let mut seen: HashSet<&str> = HashSet::new();
    for s in &symbols {
        assert!(seen.insert(s), "duplicate symbol: {}", s);
    }
    // The union of all sector lists, nothing more and nothing less.
    assert_eq!(symbols.len(), 461);
    assert!(symbols.contains(&"JPM"));
    assert!(symbols.contains(&"AAPL"));
    assert!(symbols.contains(&"XLF"));
    assert!(symbols.contains(&"SPY"));
    assert!(!symbols.contains(&"NOT_A_SYMBOL"));
}

#[test]
fn test_sector_lists_hold_their_symbols() {
    let fin = finance_sector();
    assert_eq!(fin.len(), 29);
    assert_eq!(fin[0], "JPM");
    assert_eq!(fin[28], "XLF");
    let tech = tech_sector();
    assert_eq!(tech.len(), 42);
    assert_eq!(tech[0], "AAPL");
}

#[test]
fn test_unique_symbols_keep_first_appearance_order() {
    let symbols = get_all_unique_stock_symbols();
    assert_eq!(&symbols[0..5], &["JPM", "WFC", "C", "GS", "MS"]);
}
