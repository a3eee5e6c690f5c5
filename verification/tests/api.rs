use updown_watcher::clob::{choose_initial_price, last_trade_url, midpoint_url, DEFAULT_PRICE};
use updown_watcher::gamma::{
    extract_token_ids, market_url, retry_step, select_token_ids, Market, RetryStep,
    MAX_FETCH_ATTEMPTS,
};
use updown_watcher::resolve::{
    official_outcome, official_price, resolution_url, resolve_outcome, tracked_outcome,
    OfficialReport, Outcome,
};
use updown_watcher::ws::{market_still_open, message_fields, record_trade, LatestPrices, TradeEvent};

fn b(x: f64) -> u64 {
    x.to_bits()
}

fn listing(tokens: &str, outcomes: &str) -> Market {
    Market {
        id: "558934".to_string(),
        question: "Bitcoin Up or Down".to_string(),
        clob_token_ids: tokens.to_string(),
        outcomes: outcomes.to_string(),
        active: true,
        closed: false,
    }
}

fn pair(a: &str, b: &str) -> Option<(String, String)> {
    Some((a.to_string(), b.to_string()))
}

#[test]
fn token_ids_follow_outcomes() {
    let m = listing(r#"["111", "222"]"#, r#"["Up", "Down"]"#);
    assert_eq!(extract_token_ids(&m), pair("111", "222"));
    let m = listing(r#"["111", "222"]"#, r#"["DOWN", "up"]"#);
    assert_eq!(extract_token_ids(&m), pair("222", "111"));
}

#[test]
fn token_ids_need_two_of_each_and_both_sides() {
    assert_eq!(extract_token_ids(&listing(r#"["1", "2", "3"]"#, r#"["Up", "Down"]"#)), None);
    assert_eq!(extract_token_ids(&listing(r#"["1", "2"]"#, r#"["Up", "Down", "X"]"#)), None);
    assert_eq!(extract_token_ids(&listing(r#"["1", "2"]"#, r#"["Yes", "No"]"#)), None);
    assert_eq!(extract_token_ids(&listing(r#"["1", "2"]"#, r#"["Up", "Up"]"#)), None);
    assert_eq!(extract_token_ids(&listing(r#"["", "2"]"#, r#"["Up", "Down"]"#)), None);
}

#[test]
fn token_ids_need_json_lists() {
    assert_eq!(extract_token_ids(&listing("not json", r#"["Up", "Down"]"#)), None);
    assert_eq!(extract_token_ids(&listing(r#"["1", "2"]"#, r#"{"a": 1}"#)), None);
    assert_eq!(extract_token_ids(&listing(r#"[1, 2]"#, r#"["Up", "Down"]"#)), None);
}

#[test]
fn token_selection_last_match_wins() {
    let tokens = vec!["a".to_string(), "b".to_string()];
    let outcomes = vec!["Down".to_string(), "DOWN".to_string()];
    assert_eq!(select_token_ids(&tokens, &outcomes), None);
    let outcomes = vec!["uP".to_string(), "dOwN".to_string()];
    assert_eq!(select_token_ids(&tokens, &outcomes), pair("a", "b"));
}

#[test]
fn lookup_addresses() {
    assert_eq!(
        market_url("btc-updown-15m-1700000100"),
        "https://gamma-api.polymarket.com/markets?slug=btc-updown-15m-1700000100"
    );
    assert_eq!(midpoint_url("42"), "https://clob.polymarket.com/midpoint?token_id=42");
    assert_eq!(last_trade_url("42"), "https://clob.polymarket.com/last-trade?token_id=42");
    assert_eq!(resolution_url("558934"), "https://gamma-api.polymarket.com/markets/558934");
}

#[test]
fn retry_gives_up_after_ten_lookups() {
    assert_eq!(MAX_FETCH_ATTEMPTS, 10);
    assert_eq!(retry_step(1, true), RetryStep::Found);
    assert_eq!(retry_step(10, true), RetryStep::Found);
    assert_eq!(retry_step(1, false), RetryStep::RetryAfterDelay);
    assert_eq!(retry_step(9, false), RetryStep::RetryAfterDelay);
    assert_eq!(retry_step(10, false), RetryStep::GiveUpAfterDelay);
    let mut lookups = 0;
    let mut attempt = 1;
    loop {
        lookups += 1;
        match retry_step(attempt, false) {
            RetryStep::RetryAfterDelay => attempt += 1,
            _ => break,
        }
    }
    assert_eq!(lookups, 10);
}

/// What the program hands the library for a price text: the bits of the
/// `f64` that Rust's parsing reads.
fn parsed(text: &str) -> Option<u64> {
    text.parse::<f64>().ok().map(f64::to_bits)
}

#[test]
fn initial_price_falls_back_in_order() {
    assert_eq!(choose_initial_price(Some(b(0.42)), Some(b(0.1))), b(0.42));
    assert_eq!(choose_initial_price(None, Some(b(0.1))), b(0.1));
    assert_eq!(choose_initial_price(None, None), DEFAULT_PRICE);
    assert_eq!(DEFAULT_PRICE, b(0.5));
    assert_eq!(choose_initial_price(Some(b(-0.5)), Some(b(0.1))), b(-0.5));
}

/// The report the program builds: entries that are strings are parsed, and
/// one that is no string or does not parse is given as `None`.
fn report(closed: Option<bool>, prices: Option<Vec<Option<&str>>>) -> OfficialReport {
    OfficialReport {
        closed,
        outcome_prices: prices.map(|v| v.into_iter().map(|p| p.and_then(parsed)).collect()),
    }
}

#[test]
fn official_result_needs_closed_market_and_two_prices() {
    assert_eq!(official_outcome(&report(Some(true), Some(vec![Some("1"), Some("0")]))), Some(Outcome::Up));
    assert_eq!(official_outcome(&report(Some(true), Some(vec![Some("0"), Some("1")]))), Some(Outcome::Down));
    assert_eq!(official_outcome(&report(Some(true), Some(vec![Some("0.5"), Some("0.5")]))), None);
    assert_eq!(official_outcome(&report(Some(false), Some(vec![Some("1"), Some("0")]))), None);
    assert_eq!(official_outcome(&report(None, Some(vec![Some("1"), Some("0")]))), None);
    assert_eq!(official_outcome(&report(Some(true), Some(vec![Some("1")]))), None);
    assert_eq!(official_outcome(&report(Some(true), None)), None);
    // A price that is no string, or no number, counts as zero.
    assert_eq!(official_outcome(&report(Some(true), Some(vec![None, Some("0.1")]))), Some(Outcome::Down));
    assert_eq!(official_outcome(&report(Some(true), Some(vec![Some("0.2"), Some("x")]))), Some(Outcome::Up));
    assert_eq!(official_outcome(&report(Some(true), Some(vec![Some("1e0"), Some("0.5")]))), Some(Outcome::Up));
    assert_eq!(official_price(&None), b(0.0));
    assert_eq!(official_price(&parsed("+0.42")), b(0.42));
}

#[test]
fn official_result_compares_as_floats() {
    // Negative, infinite and NaN prices are compared as the original's floats.
    assert_eq!(official_outcome(&report(Some(true), Some(vec![Some("-0.5"), Some("0")]))), Some(Outcome::Down));
    assert_eq!(official_outcome(&report(Some(true), Some(vec![Some("-0.5"), Some("-0.7")]))), Some(Outcome::Up));
    assert_eq!(official_outcome(&report(Some(true), Some(vec![Some("inf"), Some("0.5")]))), Some(Outcome::Up));
    assert_eq!(official_outcome(&report(Some(true), Some(vec![Some("NaN"), Some("0.5")]))), None);
    assert_eq!(official_outcome(&report(Some(true), Some(vec![Some("-0"), Some("0")]))), None);
    assert_eq!(official_outcome(&report(Some(true), Some(vec![Some("0.5000001"), Some("0.5")]))), Some(Outcome::Up));
    let r = report(Some(true), Some(vec![Some("-0.5"), Some("0")]));
    assert_eq!(resolve_outcome(&Some(r), b(1.0), b(0.0)), Outcome::Down);
}

#[test]
fn tracked_result_names_the_higher_side() {
    assert_eq!(tracked_outcome(b(0.6), b(0.4)), Outcome::Up);
    assert_eq!(tracked_outcome(b(0.4), b(0.6)), Outcome::Down);
    assert_eq!(tracked_outcome(b(0.5), b(0.5)), Outcome::Unknown);
    assert_eq!(tracked_outcome(b(0.0), b(-0.0)), Outcome::Unknown);
    assert_eq!(tracked_outcome(f64::NAN.to_bits(), b(0.5)), Outcome::Unknown);
}

#[test]
fn resolution_prefers_official_result() {
    let closed = report(Some(true), Some(vec![Some("0"), Some("1")]));
    assert_eq!(resolve_outcome(&Some(closed), b(0.9), b(0.1)), Outcome::Down);
    let open = report(Some(false), Some(vec![Some("0"), Some("1")]));
    assert_eq!(resolve_outcome(&Some(open), b(0.9), b(0.1)), Outcome::Up);
    assert_eq!(resolve_outcome(&None, b(0.1), b(0.9)), Outcome::Down);
    assert_eq!(resolve_outcome(&None, b(0.5), b(0.5)), Outcome::Unknown);
    assert_eq!(Outcome::Up.as_text(), "UP");
    assert_eq!(Outcome::Down.as_text(), "DOWN");
    assert_eq!(Outcome::Unknown.as_text(), "UNKNOWN");
}

fn trade(asset: &str, price: &str) -> TradeEvent {
    TradeEvent {
        event_type: Some("last_trade_price".to_string()),
        asset_id: Some(asset.to_string()),
        price: parsed(price),
    }
}

/// The event the program builds from a message text.
fn event_of(text: &str) -> TradeEvent {
    let f = message_fields(text);
    TradeEvent {
        event_type: f.event_type,
        asset_id: f.asset_id,
        price: f.price.as_deref().and_then(parsed),
    }
}

#[test]
fn stream_reports_prices_once_both_sides_traded() {
    let up = "UP1".to_string();
    let down = "DN1".to_string();
    let mut prices = LatestPrices { up: None, down: None };
    assert_eq!(record_trade(&mut prices, &trade("UP1", "0.61"), &up, &down), None);
    assert_eq!(prices, LatestPrices { up: Some(b(0.61)), down: None });
    assert_eq!(record_trade(&mut prices, &trade("OTHER", "0.2"), &up, &down), None);
    assert_eq!(
        record_trade(&mut prices, &trade("DN1", "+0.3"), &up, &down),
        Some((b(0.61), b(0.3)))
    );
    assert_eq!(
        record_trade(&mut prices, &trade("DN1", "0.39"), &up, &down),
        Some((b(0.61), b(0.39)))
    );
    assert_eq!(
        record_trade(&mut prices, &trade("UP1", "-0.5"), &up, &down),
        Some((b(-0.5), b(0.39)))
    );
    // Another asset's trade still reports both known prices.
    assert_eq!(
        record_trade(&mut prices, &trade("OTHER", "0.2"), &up, &down),
        Some((b(-0.5), b(0.39)))
    );
}

#[test]
fn stream_ignores_other_messages() {
    let up = "UP1".to_string();
    let down = "DN1".to_string();
    let mut prices = LatestPrices { up: Some(1), down: Some(2) };
    let book = TradeEvent {
        event_type: Some("book".to_string()),
        asset_id: Some("UP1".to_string()),
        price: parsed("0.5"),
    };
    assert_eq!(record_trade(&mut prices, &book, &up, &down), None);
    let no_asset = TradeEvent { asset_id: None, ..trade("UP1", "0.5") };
    assert_eq!(record_trade(&mut prices, &no_asset, &up, &down), None);
    let no_price = TradeEvent { price: None, ..trade("UP1", "0.5") };
    assert_eq!(record_trade(&mut prices, &no_price, &up, &down), None);
    assert_eq!(record_trade(&mut prices, &trade("UP1", "bad"), &up, &down), None);
    assert_eq!(prices, LatestPrices { up: Some(1), down: Some(2) });
}

#[test]
fn stream_stops_after_grace_or_on_other_market() {
    let id = "m1".to_string();
    let other = "m2".to_string();
    assert!(market_still_open(1_005, 1_000, &id, &id));
    assert!(!market_still_open(1_006, 1_000, &id, &id));
    assert!(market_still_open(0, 1_000, &id, &id));
    assert!(!market_still_open(0, 1_000, &id, &other));
}

#[test]
fn stream_message_text_is_read_into_its_fields() {
    let f = message_fields(
        r#"{"event_type":"last_trade_price","asset_id":"UP1","price":"0.61","size":"10"}"#,
    );
    assert_eq!(f.event_type.as_deref(), Some("last_trade_price"));
    assert_eq!(f.asset_id.as_deref(), Some("UP1"));
    assert_eq!(f.price.as_deref(), Some("0.61"));
    let f = message_fields(r#"{"event_type":"book","asset_id":7,"price":null}"#);
    assert_eq!(f.event_type.as_deref(), Some("book"));
    assert_eq!(f.asset_id, None);
    assert_eq!(f.price, None);
    for text in ["not json", "[1,2]", "\"x\"", ""] {
        let f = message_fields(text);
        assert!(f.event_type.is_none() && f.asset_id.is_none() && f.price.is_none());
    }
}

#[test]
fn stream_message_with_signed_price_updates() {
    let up = "UP1".to_string();
    let down = "DN1".to_string();
    let mut prices = LatestPrices { up: Some(b(0.5)), down: None };
    let e = event_of(r#"{"event_type":"last_trade_price","asset_id":"DN1","price":"+0.3"}"#);
    assert_eq!(record_trade(&mut prices, &e, &up, &down), Some((b(0.5), b(0.3))));
    let e = event_of(r#"{"event_type":"last_trade_price","asset_id":"UP1","price":"1e-1"}"#);
    assert_eq!(record_trade(&mut prices, &e, &up, &down), Some((b(0.1), b(0.3))));
}
