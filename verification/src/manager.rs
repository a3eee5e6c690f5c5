use vstd::prelude::*;

use crate::config::{all_markets_spec, get_all_markets, is_default_config, MarketConfig};
use crate::time::{current_window_ts, now_ts, spec_window_start, MAX_CLOCK_TS};

verus! {

/// Seconds before a market's end from which the next market is prepared.
pub const PRELOAD_LEAD_SECS: i64 = 20;

/// The market series of one symbol: its configuration, the market being
/// watched now, and the next one once it has been prepared. The markets are
/// held as `T`, whatever the caller keeps for a watched market.
pub struct MarketHandler<T> {
    pub config: MarketConfig,
    pub current_market: Option<T>,
    pub next_market: Option<T>,
}

/// One pass over a handler happens at one time: `now`, and the window that
/// holds it (`window_end` is its start plus the series' interval).
#[derive(Clone, Copy, Debug, PartialEq, Eq, Structural)]
pub struct Tick {
    pub now: i64,
    pub window_start: i64,
    pub window_end: i64,
}

/// How far a pass over a handler has got.
#[derive(Clone, Copy, Debug, PartialEq, Eq, Structural)]
pub enum TickStage {
    /// Nothing done yet.
    Begin,
    /// A market was asked for the current window (it may not have come).
    AfterInitialize,
    /// The next market was asked for.
    AfterPreload,
    /// The pass is over.
    Done,
}

/// What a pass asks the caller to do next.
#[derive(Clone, Copy, Debug, PartialEq, Eq, Structural)]
pub enum TickAction {
    /// Look up the market of the window `[start_ts, end_ts)` and make it current.
    InitializeCurrent { start_ts: i64, end_ts: i64 },
    /// Look up the market of the window `[start_ts, end_ts)` and hold it as next.
    PreloadNext { start_ts: i64, end_ts: i64 },
    /// The current market is over: settle it, then shift the markets.
    EndCurrent,
    /// Nothing more in this pass.
    Finish,
}

/// The step of a pass that looks at the current market (ending at `end`, if
/// there is one): prepare the next market within `PRELOAD_LEAD_SECS` of the
/// end when none is held, and end the current market once its end has come.
pub open spec fn spec_check_current(
    tick: Tick,
    interval: i64,
    current_end: Option<i64>,
    has_next: bool,
) -> (TickStage, TickAction) {
    match current_end {
        None => (TickStage::Done, TickAction::Finish),
        Some(end) => {
            let secs_left = end - tick.now;
            if secs_left <= 20 && !has_next {
                (
                    TickStage::AfterPreload,
                    TickAction::PreloadNext {
                        start_ts: tick.window_end,
                        end_ts: (tick.window_end + interval) as i64,
                    },
                )
            } else if secs_left <= 0 {
                (TickStage::Done, TickAction::EndCurrent)
            } else {
                (TickStage::Done, TickAction::Finish)
            }
        },
    }
}

/// One step of a pass over a handler, from the stage reached, the handler's
/// interval, the end of its current market (if any) and whether it holds a
/// next market.
pub open spec fn spec_tick_step(
    stage: TickStage,
    tick: Tick,
    interval: i64,
    current_end: Option<i64>,
    has_next: bool,
) -> (TickStage, TickAction) {
    match stage {
        TickStage::Begin => if current_end is None {
            (
                TickStage::AfterInitialize,
                TickAction::InitializeCurrent { start_ts: tick.window_start, end_ts: tick.window_end },
            )
        } else {
            spec_check_current(tick, interval, current_end, has_next)
        },
        TickStage::AfterInitialize => spec_check_current(tick, interval, current_end, has_next),
        TickStage::AfterPreload => match current_end {
            Some(end) => if end - tick.now <= 0 {
                (TickStage::Done, TickAction::EndCurrent)
            } else {
                (TickStage::Done, TickAction::Finish)
            },
            None => (TickStage::Done, TickAction::Finish),
        },
        TickStage::Done => (TickStage::Done, TickAction::Finish),
    }
}

/// The step will ask for the next market: the pass has not yet looked at
/// the current market, which ends within `PRELOAD_LEAD_SECS`, and no next
/// market is held.
pub open spec fn preload_due(stage: TickStage, tick: Tick, current_end: Option<i64>, has_next: bool) -> bool {
    &&& (stage == TickStage::Begin || stage == TickStage::AfterInitialize)
    &&& current_end matches Some(end) && end - tick.now <= PRELOAD_LEAD_SECS
    &&& !has_next
}

/// The arithmetic of a step stays within `i64`: the time left of the current
/// market, and the next window's end where the next market is asked for.
pub open spec fn tick_step_fits(
    stage: TickStage,
    tick: Tick,
    interval: i64,
    current_end: Option<i64>,
    has_next: bool,
) -> bool {
    &&& current_end matches Some(end) ==> i64::MIN <= end - tick.now <= i64::MAX
    &&& preload_due(stage, tick, current_end, has_next) ==> i64::MIN <= tick.window_end + interval
        <= i64::MAX
}

impl<T> MarketHandler<T> {
    /// A handler for a series, holding no market yet.
    pub fn new(config: MarketConfig) -> (res: Self)
        ensures
            res.config == config,
            res.current_market is None,
            res.next_market is None,
    {
        MarketHandler { config, current_market: None, next_market: None }
    }

    /// The next market becomes the current one, and no next market is held.
    pub fn shift_markets(&mut self)
        ensures
            final(self).current_market == old(self).next_market,
            final(self).next_market is None,
            final(self).config == old(self).config,
    {
        self.current_market = self.next_market.take();
        self.next_market = None;
    }

    /// The tick of a pass at time `now`: `now` itself, the start of the window
    /// that holds it, and that start plus the series' interval. `None` where
    /// the window's end does not fit in an `i64`.
    pub fn tick_at(&self, now: i64) -> (res: Option<Tick>)
        ensures
            res is Some <==> i64::MIN <= spec_window_start(now as int) + self.config.interval
                <= i64::MAX,
            res matches Some(tick) ==> {
                &&& tick.now == now
                &&& tick.window_start == spec_window_start(now as int)
                &&& tick.window_start <= now < tick.window_start + 900 || now < 0
                &&& tick.window_end == tick.window_start + self.config.interval
            },
    {
        let window_start = current_window_ts(now);
        proof {
            if now >= 0 {
                crate::time::lemma_window_holds_time(now as int);
            }
        }
        match window_start.checked_add(self.config.interval) {
            Some(window_end) => Some(Tick { now, window_start, window_end }),
            None => None,
        }
    }

    /// Starts a pass: reads the clock and takes the tick at that reading (see
    /// `tick_at`). `None` where the window's end does not fit in an `i64`
    /// (adding the interval would overflow).
    pub fn begin_tick(&self) -> (res: Option<Tick>)
        ensures
            res matches Some(tick) ==> {
                &&& -MAX_CLOCK_TS < tick.now < MAX_CLOCK_TS
                &&& tick.window_start == spec_window_start(tick.now as int)
                &&& tick.window_end == tick.window_start + self.config.interval
            },
            res is None ==> exists|now: int|
                -MAX_CLOCK_TS < now < MAX_CLOCK_TS && !(i64::MIN <= #[trigger] spec_window_start(
                    now,
                ) + self.config.interval <= i64::MAX),
            i64::MIN + MAX_CLOCK_TS <= self.config.interval <= i64::MAX - MAX_CLOCK_TS ==> res is Some,
    {
        let now = now_ts();
        self.tick_at(now)
    }

    /// The next step of a pass; `current_end` is the end of the current
    /// market, given exactly when one is held.
    pub fn tick_step(&self, stage: TickStage, tick: Tick, current_end: Option<i64>) -> (res: (
        TickStage,
        TickAction,
    ))
        requires
            current_end is Some <==> self.current_market is Some,
            tick_step_fits(
                stage,
                tick,
                self.config.interval,
                current_end,
                self.next_market is Some,
            ),
        ensures
            res == spec_tick_step(
                stage,
                tick,
                self.config.interval,
                current_end,
                self.next_market is Some,
            ),
            // The current market is ended only once its end has come.
            res.1 == TickAction::EndCurrent ==> (current_end matches Some(end) && end <= tick.now),
            // Once its end has come, it is ended: at once where a next market is
            // held (or was just asked for), else right after asking for one.
            current_end matches Some(end) && end <= tick.now && stage != TickStage::Done && (
            self.next_market is Some || stage == TickStage::AfterPreload) ==> res
                == (TickStage::Done, TickAction::EndCurrent),
            // The next market is asked for only within `PRELOAD_LEAD_SECS` of the
            // current one's end, when none is held, for the window after this one.
            res.1 matches TickAction::PreloadNext { start_ts, end_ts } ==> {
                &&& (current_end matches Some(end) && end - tick.now <= PRELOAD_LEAD_SECS)
                &&& self.next_market is None
                &&& start_ts == tick.window_end
                &&& end_ts == tick.window_end + self.config.interval
                &&& res.0 == TickStage::AfterPreload
            },
            // Before the pass has looked at the current market, one within
            // `PRELOAD_LEAD_SECS` of its end with no next market held gets one asked for.
            (stage == TickStage::Begin || stage == TickStage::AfterInitialize) && (current_end matches Some(
                end,
            ) && end - tick.now <= PRELOAD_LEAD_SECS) && self.next_market is None ==> res.1 is PreloadNext,
            // A market is made current only at the start of a pass that holds
            // none, for the window that holds `now`.
            res.1 matches TickAction::InitializeCurrent { start_ts, end_ts } ==> {
                &&& stage == TickStage::Begin
                &&& current_end is None
                &&& start_ts == tick.window_start
                &&& end_ts == tick.window_end
            },
            stage == TickStage::Begin && current_end is None ==> res.1 is InitializeCurrent,
            // A current market more than `PRELOAD_LEAD_SECS` from its end is left alone.
            current_end matches Some(end) && end - tick.now > PRELOAD_LEAD_SECS ==> res == (
                TickStage::Done,
                TickAction::Finish,
            ),
    {
        let has_next = self.next_market.is_some();
        match stage {
            TickStage::Begin => {
                if current_end.is_none() {
                    (
                        TickStage::AfterInitialize,
                        TickAction::InitializeCurrent {
                            start_ts: tick.window_start,
                            end_ts: tick.window_end,
                        },
                    )
                } else {
                    check_current(tick, self.config.interval, current_end, has_next)
                }
            },
            TickStage::AfterInitialize => check_current(
                tick,
                self.config.interval,
                current_end,
                has_next,
            ),
            TickStage::AfterPreload => match current_end {
                Some(end) => {
                    if end - tick.now <= 0 {
                        (TickStage::Done, TickAction::EndCurrent)
                    } else {
                        (TickStage::Done, TickAction::Finish)
                    }
                },
                None => (TickStage::Done, TickAction::Finish),
            },
            TickStage::Done => (TickStage::Done, TickAction::Finish),
        }
    }
}

fn check_current(tick: Tick, interval: i64, current_end: Option<i64>, has_next: bool) -> (res: (
    TickStage,
    TickAction,
))
    requires
        current_end matches Some(end) ==> i64::MIN <= end - tick.now <= i64::MAX,
        preload_due(TickStage::AfterInitialize, tick, current_end, has_next) ==> i64::MIN
            <= tick.window_end + interval <= i64::MAX,
    ensures
        res == spec_check_current(tick, interval, current_end, has_next),
{
    match current_end {
        None => (TickStage::Done, TickAction::Finish),
        Some(end) => {
            let secs_left = end - tick.now;
            if secs_left <= PRELOAD_LEAD_SECS && !has_next {
                (
                    TickStage::AfterPreload,
                    TickAction::PreloadNext {
                        start_ts: tick.window_end,
                        end_ts: tick.window_end + interval,
                    },
                )
            } else if secs_left <= 0 {
                (TickStage::Done, TickAction::EndCurrent)
            } else {
                (TickStage::Done, TickAction::Finish)
            }
        },
    }
}

/// A step ends the current market only once its end has come, at any stage;
/// a step more than `PRELOAD_LEAD_SECS` before the end does nothing.
pub proof fn lemma_end_only_after_end(
    stage: TickStage,
    tick: Tick,
    interval: i64,
    end: i64,
    has_next: bool,
)
    ensures
        spec_tick_step(stage, tick, interval, Some(end), has_next).1 == TickAction::EndCurrent
            ==> end <= tick.now,
        end - tick.now > PRELOAD_LEAD_SECS ==> spec_tick_step(stage, tick, interval, Some(end), has_next)
            == (TickStage::Done, TickAction::Finish),
        end <= tick.now && stage != TickStage::Done && (has_next || stage == TickStage::AfterPreload)
            ==> spec_tick_step(stage, tick, interval, Some(end), has_next).1 == TickAction::EndCurrent,
{
}

/// A pass that finds a current market whose end has come ends it: at once,
/// or right after asking for the next market.
pub proof fn lemma_ended_market_is_ended(
    stage: TickStage,
    tick: Tick,
    interval: i64,
    end: i64,
    has_next: bool,
    has_next_after: bool,
)
    requires
        stage == TickStage::Begin || stage == TickStage::AfterInitialize,
        end <= tick.now,
    ensures
        ({
            let (s1, a1) = spec_tick_step(stage, tick, interval, Some(end), has_next);
            ||| a1 == TickAction::EndCurrent
            ||| (a1 is PreloadNext && spec_tick_step(s1, tick, interval, Some(end), has_next_after).1
                == TickAction::EndCurrent)
        }),
{
}

/// The next market is only asked for within `PRELOAD_LEAD_SECS` of the current
/// market's end, when none is held; a market is only made current when none is.
pub proof fn lemma_preload_only_near_end(
    stage: TickStage,
    tick: Tick,
    interval: i64,
    current_end: Option<i64>,
    has_next: bool,
)
    ensures
        spec_tick_step(stage, tick, interval, current_end, has_next).1 is PreloadNext ==> {
            &&& !has_next
            &&& current_end matches Some(end) && end - tick.now <= PRELOAD_LEAD_SECS
        },
        spec_tick_step(stage, tick, interval, current_end, has_next).1 is InitializeCurrent
            ==> current_end is None && stage == TickStage::Begin,
{
}

/// A pass takes at most three steps before it finishes.
pub proof fn lemma_tick_terminates(
    tick: Tick,
    interval: i64,
    e1: Option<i64>,
    e2: Option<i64>,
    e3: Option<i64>,
    n1: bool,
    n2: bool,
    n3: bool,
)
    ensures
        ({
            let (s1, a1) = spec_tick_step(TickStage::Begin, tick, interval, e1, n1);
            let (s2, a2) = spec_tick_step(s1, tick, interval, e2, n2);
            let (s3, a3) = spec_tick_step(s2, tick, interval, e3, n3);
            s3 == TickStage::Done
        }),
{
}

/// The market handlers, one per symbol, in the order they were added.
pub struct MarketManager<T> {
    pub handlers: Vec<MarketHandler<T>>,
}

/// No two handlers have the same symbol.
pub open spec fn symbols_distinct<T>(hs: Seq<MarketHandler<T>>) -> bool {
    forall|i: int, j: int|
        0 <= i < hs.len() && 0 <= j < hs.len() && i != j ==> #[trigger] hs[i].config.symbol@
            != #[trigger] hs[j].config.symbol@
}

/// Some handler has this symbol.
pub open spec fn has_symbol<T>(hs: Seq<MarketHandler<T>>, symbol: Seq<char>) -> bool {
    exists|i: int| 0 <= i < hs.len() && #[trigger] hs[i].config.symbol@ == symbol
}

impl<T> MarketManager<T> {
    pub open spec fn wf(&self) -> bool {
        symbols_distinct(self.handlers@)
    }

    /// A manager with no handlers.
    pub fn new() -> (res: Self)
        ensures
            res.handlers@.len() == 0,
            res.wf(),
    {
        MarketManager { handlers: Vec::new() }
    }

    /// Adds a handler under its symbol, in place of the handler with the same
    /// symbol where there is one (the others keep their places).
    pub fn insert_handler(&mut self, handler: MarketHandler<T>)
        requires
            old(self).wf(),
        ensures
            final(self).wf(),
            has_symbol(old(self).handlers@, handler.config.symbol@) ==> {
                &&& final(self).handlers@.len() == old(self).handlers@.len()
                &&& forall|i: int|
                    0 <= i < old(self).handlers@.len() ==> #[trigger] final(self).handlers@[i] == if old(
                        self,
                    ).handlers@[i].config.symbol@ == handler.config.symbol@ {
                        handler
                    } else {
                        old(self).handlers@[i]
                    }
            },
            !has_symbol(old(self).handlers@, handler.config.symbol@) ==> final(self).handlers@
                == old(self).handlers@.push(handler),
    {
        let n = self.handlers.len();
        let mut i: usize = 0;
        while i < n
            invariant
                n == self.handlers@.len(),
                self.handlers@ == old(self).handlers@,
                symbols_distinct(self.handlers@),
                i <= n,
                forall|j: int|
                    0 <= j < i ==> #[trigger] self.handlers@[j].config.symbol@
                        != handler.config.symbol@,
            decreases n - i,
        {
            if self.handlers[i].config.symbol == handler.config.symbol {
                let ghost old_hs = self.handlers@;
                let ghost h = handler;
                self.handlers.set(i, handler);
                assert forall|k: int| 0 <= k < n implies #[trigger] self.handlers@[k] == if old_hs[k].config.symbol@
                    == h.config.symbol@ {
                    h
                } else {
                    old_hs[k]
                } by {
                    if k != i && old_hs[k].config.symbol@ == h.config.symbol@ {
                        assert(old_hs[k].config.symbol@ != old_hs[i as int].config.symbol@);
                    }
                }
                assert(has_symbol(old_hs, h.config.symbol@));
                assert forall|a: int, b: int|
                    0 <= a < n && 0 <= b < n && a != b implies #[trigger] self.handlers@[a].config.symbol@
                        != #[trigger] self.handlers@[b].config.symbol@ by {
                    if a != i && b != i {
                        assert(old_hs[a].config.symbol@ != old_hs[b].config.symbol@);
                    } else if a == i {
                        assert(old_hs[i as int].config.symbol@ != old_hs[b].config.symbol@);
                    } else {
                        assert(old_hs[a].config.symbol@ != old_hs[i as int].config.symbol@);
                    }
                }
                return;
            }
            i = i + 1;
        }
        let ghost old_hs = self.handlers@;
        self.handlers.push(handler);
        assert(!has_symbol(old_hs, self.handlers@[n as int].config.symbol@));
    }

    /// Adds a fresh handler for every watched market (see `get_all_markets`):
    /// afterwards there is a fresh handler for each of them, every handler is
    /// one of those or one that was there before, and every handler that was
    /// there before stays where its symbol is not a watched one.
    pub fn initialize(&mut self)
        requires
            old(self).wf(),
        ensures
            final(self).wf(),
            forall|k: int|
                0 <= k < all_markets_spec().len() ==> #[trigger] covers(final(self).handlers@, k),
            forall|i: int|
                0 <= i < final(self).handlers@.len() ==> #[trigger] kept_or_fresh(
                    old(self).handlers@,
                    final(self).handlers@[i],
                    all_markets_spec().len() as int,
                ),
            stays(old(self).handlers@, final(self).handlers@, all_markets_spec().len() as int),
    {
        let mut all = get_all_markets();
        let ghost specs = all_markets_spec();
        let ghost old_hs = self.handlers@;
        proof {
            lemma_market_symbols_distinct();
            lemma_stays_start(old_hs);
            assert(stays(old_hs, self.handlers@, 0));
        }
        let mut k: usize = 0;
        while all.len() > 0
            invariant
                specs == all_markets_spec(),
                self.wf(),
                0 <= k <= specs.len(),
                all.len() == specs.len() - k,
                forall|t: int|
                    0 <= t < all.len() ==> is_default_config(
                        #[trigger] all@[t],
                        specs[k + t].0,
                        specs[k + t].1,
                    ),
                forall|a: int, b: int|
                    0 <= a < specs.len() && 0 <= b < specs.len() && a != b ==> #[trigger] specs[a].0
                        != #[trigger] specs[b].0,
                forall|kk: int| 0 <= kk < k ==> #[trigger] covers(self.handlers@, kk),
                forall|i: int|
                    0 <= i < self.handlers@.len() ==> #[trigger] kept_or_fresh(
                        old_hs,
                        self.handlers@[i],
                        k as int,
                    ),
                stays(old_hs, self.handlers@, k as int),
            decreases all.len(),
        {
            let ghost all_before = all@;
            assert(is_default_config(all_before[0], specs[k as int].0, specs[k as int].1));
            let config = all.remove(0);
            assert forall|t: int| 0 <= t < all.len() implies is_default_config(
                #[trigger] all@[t],
                specs[k + 1 + t].0,
                specs[k + 1 + t].1,
            ) by {
                assert(all@[t] == all_before[t + 1]);
            }
            let handler: MarketHandler<T> = MarketHandler::new(config);
            let ghost before = self.handlers@;
            let ghost h = handler;
            self.insert_handler(handler);
            proof {
                let after = self.handlers@;
                assert forall|j: int|
                    0 <= j < old_hs.len() && !watched_among(
                        #[trigger] old_hs[j].config.symbol@,
                        k + 1,
                    ) implies contains_handler(after, old_hs[j]) by {
                    assert(!watched_among(old_hs[j].config.symbol@, k as int));
                    assert(all_markets_spec()[k as int].0 != old_hs[j].config.symbol@);
                    let i0 = choose|i: int| 0 <= i < before.len() && #[trigger] before[i] == old_hs[j];
                    assert(before[i0].config.symbol@ != h.config.symbol@);
                    assert(after[i0] == before[i0]);
                }
                assert(fresh_for(h, k as int));
                if has_symbol(before, h.config.symbol@) {
                    let w = choose|i: int| 0 <= i < before.len() && #[trigger] before[i].config.symbol@ == h.config.symbol@;
                    assert(after[w] == h);
                    assert(covers(after, k as int));
                    assert forall|kk: int| 0 <= kk < k + 1 implies #[trigger] covers(after, kk) by {
                        if kk < k {
                            assert(covers(before, kk));
                            let i = choose|i: int| 0 <= i < before.len() && #[trigger] fresh_for(before[i], kk);
                            assert(specs[kk].0 != specs[k as int].0);
                            assert(after[i] == before[i]);
                        }
                    }
                    assert forall|i: int| 0 <= i < after.len() implies #[trigger] kept_or_fresh(old_hs, after[i], k + 1) by {
                        if before[i].config.symbol@ == h.config.symbol@ {
                            assert(after[i] == h);
                        } else {
                            assert(after[i] == before[i]);
                            assert(kept_or_fresh(old_hs, before[i], k as int));
                        }
                    }
                } else {
                    assert(after == before.push(h));
                    assert(after[before.len() as int] == h);
                    assert forall|kk: int| 0 <= kk < k + 1 implies #[trigger] covers(after, kk) by {
                        if kk < k {
                            assert(covers(before, kk));
                            let i = choose|i: int| 0 <= i < before.len() && #[trigger] fresh_for(before[i], kk);
                            assert(after[i] == before[i]);
                        } else {
                            assert(fresh_for(after[before.len() as int], kk));
                        }
                    }
                    assert forall|i: int| 0 <= i < after.len() implies #[trigger] kept_or_fresh(old_hs, after[i], k + 1) by {
                        if i < before.len() {
                            assert(after[i] == before[i]);
                            assert(kept_or_fresh(old_hs, before[i], k as int));
                            assert(before[i].config.symbol@ != h.config.symbol@);
                        } else {
                            assert(after[i] == h);
                        }
                    }
                }
            }
            k = k + 1;
        }
    }
}

/// Every handler of `old_hs` whose symbol is none of the first `k` watched
/// markets' is still in `hs`.
pub open spec fn stays<T>(old_hs: Seq<MarketHandler<T>>, hs: Seq<MarketHandler<T>>, k: int) -> bool {
    forall|j: int|
        0 <= j < old_hs.len() && !watched_among(#[trigger] old_hs[j].config.symbol@, k) ==> contains_handler(hs, old_hs[j])
}

/// `symbol` is the symbol of one of the first `k` watched markets.
pub open spec fn watched_among(symbol: Seq<char>, k: int) -> bool {
    exists|kk: int| 0 <= kk < k && #[trigger] all_markets_spec()[kk].0 == symbol
}

pub open spec fn contains_handler<T>(hs: Seq<MarketHandler<T>>, h: MarketHandler<T>) -> bool {
    exists|i: int| 0 <= i < hs.len() && #[trigger] hs[i] == h
}

proof fn lemma_stays_start<T>(hs: Seq<MarketHandler<T>>)
    ensures
        stays(hs, hs, 0),
{
    assert forall|j: int| 0 <= j < hs.len() implies contains_handler(hs, #[trigger] hs[j]) by {
        assert(hs[j] == hs[j]);
    }
}

/// `h` is the fresh handler of watched market number `k`.
pub open spec fn fresh_for<T>(h: MarketHandler<T>, k: int) -> bool {
    &&& is_default_config(h.config, all_markets_spec()[k].0, all_markets_spec()[k].1)
    &&& h.current_market is None
    &&& h.next_market is None
}

/// Some handler is the fresh handler of watched market number `k`.
pub open spec fn covers<T>(hs: Seq<MarketHandler<T>>, k: int) -> bool {
    exists|i: int| 0 <= i < hs.len() && #[trigger] fresh_for(hs[i], k)
}

/// `h` is either a handler of `old_hs` whose symbol is none of the first `k`
/// watched markets', or the fresh handler of one of those.
pub open spec fn kept_or_fresh<T>(old_hs: Seq<MarketHandler<T>>, h: MarketHandler<T>, k: int) -> bool {
    ||| (exists|j: int| 0 <= j < old_hs.len() && #[trigger] old_hs[j] == h) && (forall|kk: int|
        0 <= kk < k ==> #[trigger] all_markets_spec()[kk].0 != h.config.symbol@)
    ||| exists|kk: int| 0 <= kk < k && #[trigger] fresh_for(h, kk)
}

/// The watched markets have distinct symbols.
pub proof fn lemma_market_symbols_distinct()
    ensures
        forall|a: int, b: int|
            0 <= a < all_markets_spec().len() && 0 <= b < all_markets_spec().len() && a != b
                ==> #[trigger] all_markets_spec()[a].0 != #[trigger] all_markets_spec()[b].0,
{
    reveal_strlit("BTC");
    reveal_strlit("ETH");
    reveal_strlit("SOL");
    reveal_strlit("XRP");
    let s = all_markets_spec();
    assert(s[0].0[0] == 'B');
    assert(s[1].0[0] == 'E');
    assert(s[2].0[0] == 'S');
    assert(s[3].0[0] == 'X');
}

} // verus!
