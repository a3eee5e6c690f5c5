use updown_watcher::config::MarketConfig;
use updown_watcher::manager::{MarketHandler, MarketManager, Tick, TickAction, TickStage};

fn handler(current: Option<u32>, next: Option<u32>) -> MarketHandler<u32> {
    let mut h = MarketHandler::new(MarketConfig::new("BTC", "btc"));
    h.current_market = current;
    h.next_market = next;
    h
}

fn tick(now: i64) -> Tick {
    let start = now - now % 900;
    Tick { now, window_start: start, window_end: start + 900 }
}

#[test]
fn new_handler_holds_no_market() {
    let h: MarketHandler<u32> = MarketHandler::new(MarketConfig::new("ETH", "eth"));
    assert!(h.current_market.is_none());
    assert!(h.next_market.is_none());
    assert_eq!(h.config.symbol, "ETH");
}

#[test]
fn shift_makes_next_current() {
    let mut h = handler(Some(1), Some(2));
    h.shift_markets();
    assert_eq!(h.current_market, Some(2));
    assert_eq!(h.next_market, None);
    h.shift_markets();
    assert_eq!(h.current_market, None);
}

#[test]
fn begin_tick_reads_clock_and_window() {
    let h = handler(None, None);
    let t = h.begin_tick().unwrap();
    assert_eq!(t.window_start, t.now - t.now % 900);
    assert_eq!(t.window_end, t.window_start + 900);
}

#[test]
fn begin_tick_refuses_an_overflowing_window() {
    let mut h = handler(None, None);
    h.config.interval = i64::MAX;
    assert!(h.begin_tick().is_none());
    h.config.interval = -1;
    let t = h.begin_tick().unwrap();
    assert_eq!(t.window_end, t.window_start - 1);
}

#[test]
fn near_max_window_needs_no_room_unless_preloading() {
    // Far from the end, the next window's end is never computed.
    let h = handler(Some(7), None);
    let t = Tick { now: 0, window_start: i64::MAX - 900, window_end: i64::MAX };
    assert_eq!(h.tick_step(TickStage::Begin, t, Some(1_000)), (TickStage::Done, TickAction::Finish));
}

#[test]
fn pass_without_market_initializes_current_window() {
    let h = handler(None, None);
    let t = tick(1_700_000_123);
    let (stage, action) = h.tick_step(TickStage::Begin, t, None);
    assert_eq!(stage, TickStage::AfterInitialize);
    assert_eq!(
        action,
        TickAction::InitializeCurrent { start_ts: 1_700_000_100, end_ts: 1_700_001_000 }
    );
    // The lookup found nothing: the pass is over.
    assert_eq!(h.tick_step(stage, t, None), (TickStage::Done, TickAction::Finish));
}

#[test]
fn pass_far_from_end_does_nothing() {
    let h = handler(Some(7), None);
    let t = tick(1_700_000_123);
    assert_eq!(
        h.tick_step(TickStage::Begin, t, Some(1_700_001_000)),
        (TickStage::Done, TickAction::Finish)
    );
}

#[test]
fn pass_near_end_preloads_next_window() {
    let h = handler(Some(7), None);
    let t = tick(1_700_000_980);
    let (stage, action) = h.tick_step(TickStage::Begin, t, Some(1_700_001_000));
    assert_eq!(stage, TickStage::AfterPreload);
    assert_eq!(action, TickAction::PreloadNext { start_ts: 1_700_001_000, end_ts: 1_700_001_900 });
    assert_eq!(h.tick_step(stage, t, Some(1_700_001_000)), (TickStage::Done, TickAction::Finish));
    // With the next market already held, nothing is preloaded.
    let h2 = handler(Some(7), Some(8));
    assert_eq!(
        h2.tick_step(TickStage::Begin, t, Some(1_700_001_000)),
        (TickStage::Done, TickAction::Finish)
    );
}

#[test]
fn pass_after_end_ends_current() {
    let h = handler(Some(7), Some(8));
    let t = tick(1_700_001_002);
    assert_eq!(
        h.tick_step(TickStage::Begin, t, Some(1_700_001_000)),
        (TickStage::Done, TickAction::EndCurrent)
    );
    // Without a next market, the pass first asks for it, then ends the current one.
    let h2 = handler(Some(7), None);
    let (stage, action) = h2.tick_step(TickStage::Begin, t, Some(1_700_001_000));
    assert!(matches!(action, TickAction::PreloadNext { .. }));
    assert_eq!(h2.tick_step(stage, t, Some(1_700_001_000)), (TickStage::Done, TickAction::EndCurrent));
}

#[test]
fn done_pass_stays_done() {
    let h = handler(None, None);
    assert_eq!(
        h.tick_step(TickStage::Done, tick(0), None),
        (TickStage::Done, TickAction::Finish)
    );
}

#[test]
fn manager_initializes_one_handler_per_market() {
    let mut m: MarketManager<u32> = MarketManager::new();
    assert!(m.handlers.is_empty());
    m.initialize();
    let symbols: Vec<&str> = m.handlers.iter().map(|h| h.config.symbol.as_str()).collect();
    assert_eq!(symbols, vec!["BTC", "ETH", "SOL", "XRP"]);
    assert!(m.handlers.iter().all(|h| h.current_market.is_none() && h.next_market.is_none()));
    // Initializing again replaces each handler in place.
    m.handlers[1].current_market = Some(5);
    m.initialize();
    assert_eq!(m.handlers.len(), 4);
    assert!(m.handlers[1].current_market.is_none());
}

#[test]
fn manager_insert_replaces_same_symbol() {
    let mut m: MarketManager<u32> = MarketManager::new();
    m.insert_handler(handler(Some(1), None));
    let mut doge = MarketHandler::new(MarketConfig::new("DOGE", "doge"));
    doge.current_market = Some(3);
    m.insert_handler(doge);
    m.insert_handler(handler(Some(2), None));
    assert_eq!(m.handlers.len(), 2);
    assert_eq!(m.handlers[0].config.symbol, "BTC");
    assert_eq!(m.handlers[0].current_market, Some(2));
    assert_eq!(m.handlers[1].current_market, Some(3));
    m.initialize();
    assert_eq!(m.handlers.len(), 5);
    // The handler of a symbol that is not watched stays as it was.
    assert_eq!(m.handlers[1].config.symbol, "DOGE");
    assert_eq!(m.handlers[1].current_market, Some(3));
}
