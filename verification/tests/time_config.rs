use updown_watcher::config::{get_all_markets, get_market_by_symbol, MarketConfig};
use updown_watcher::time::{
    current_window_ts, generate_slug, now_ts, window_end_ts, INTERVAL_15MINS, MAX_CLOCK_TS,
};

#[test]
fn window_start_rounds_down_to_quarter_hour() {
    assert_eq!(current_window_ts(1_700_000_123), 1_700_000_100);
    assert_eq!(current_window_ts(1_700_000_100), 1_700_000_100);
    assert_eq!(current_window_ts(1_700_000_999), 1_700_000_100);
    assert_eq!(current_window_ts(0), 0);
    assert_eq!(current_window_ts(899), 0);
    assert_eq!(current_window_ts(900), 900);
}

#[test]
fn window_start_truncates_towards_zero_for_negative_times() {
    assert_eq!(current_window_ts(-1), 0);
    assert_eq!(current_window_ts(-900), -900);
    assert_eq!(current_window_ts(-901), -900);
    assert_eq!(current_window_ts(i64::MIN), i64::MIN - (i64::MIN % 900));
}

#[test]
fn window_start_is_idempotent_and_holds_time() {
    for now in [0i64, 1, 899, 900, 901, 1_700_000_123, 1_765_432_198] {
        let start = current_window_ts(now);
        assert_eq!(current_window_ts(start), start);
        assert!(start <= now && now < start + INTERVAL_15MINS);
        assert_eq!(start % 900, 0);
        assert_eq!(current_window_ts(window_end_ts(start)), window_end_ts(start));
    }
}

#[test]
fn window_end_is_fifteen_minutes_later() {
    assert_eq!(window_end_ts(1_700_000_100), 1_700_001_000);
    assert_eq!(window_end_ts(-900), 0);
}

#[test]
fn slug_is_lowercase_prefix_and_window() {
    assert_eq!(generate_slug("BTC", 1_700_000_100), "btc-updown-15m-1700000100");
    assert_eq!(generate_slug("eth", 0), "eth-updown-15m-0");
    assert_eq!(generate_slug("Sol", -900), "sol-updown-15m--900");
    assert_eq!(
        generate_slug("XRP", i64::MIN),
        format!("xrp-updown-15m-{}", i64::MIN)
    );
    assert_eq!(
        generate_slug("XRP", i64::MAX),
        format!("xrp-updown-15m-{}", i64::MAX)
    );
}

#[test]
fn clock_reading_is_in_range() {
    let a = now_ts();
    let b = now_ts();
    assert!(a >= 1_600_000_000 && a < MAX_CLOCK_TS && a > -MAX_CLOCK_TS);
    assert!(b >= a);
}

#[test]
fn config_new_defaults() {
    let c = MarketConfig::new("BTC", "btc");
    assert_eq!(c.symbol, "BTC");
    assert_eq!(c.slug_prefix, "btc");
    assert_eq!(c.interval, 900);
    assert!(c.active);
}

#[test]
fn config_slug_matches_free_function() {
    let c = MarketConfig::new("ETH", "ETH");
    assert_eq!(c.generate_slug(1_700_000_100), "eth-updown-15m-1700000100");
    assert_eq!(c.generate_slug(1_700_000_100), generate_slug("ETH", 1_700_000_100));
}

#[test]
fn all_markets_are_the_four_series() {
    let all = get_all_markets();
    let pairs: Vec<(String, String)> = all
        .iter()
        .map(|c| (c.symbol.clone(), c.slug_prefix.clone()))
        .collect();
    assert_eq!(
        pairs,
        vec![
            ("BTC".to_string(), "btc".to_string()),
            ("ETH".to_string(), "eth".to_string()),
            ("SOL".to_string(), "sol".to_string()),
            ("XRP".to_string(), "xrp".to_string()),
        ]
    );
    assert!(all.iter().all(|c| c.interval == 900 && c.active));
}

#[test]
fn market_by_symbol_finds_exact_symbol() {
    let sol = get_market_by_symbol("SOL").unwrap();
    assert_eq!(sol.symbol, "SOL");
    assert_eq!(sol.slug_prefix, "sol");
    assert_eq!(sol.interval, 900);
    assert_eq!(get_market_by_symbol("XRP").unwrap().slug_prefix, "xrp");
    for symbol in ["BTC", "ETH", "SOL", "XRP"] {
        let c = get_market_by_symbol(symbol).unwrap();
        assert_eq!(c.symbol, symbol);
        assert_eq!(c.slug_prefix, symbol.to_lowercase());
    }
    assert!(get_market_by_symbol("DOGE").is_none());
    assert!(get_market_by_symbol("btc").is_none());
    assert!(get_market_by_symbol("").is_none());
}
