use vstd::prelude::*;

use crate::config::MarketConfig;
use crate::gamma::Market;
use crate::price::{is_nan, lemma_lt_order, less_than, price_le, price_lt, ZERO_PRICE};

verus! {

/// Price thresholds that a side is watched against: the binary64 patterns of
/// `0.35`, `0.30`, `0.25`, `0.20`, `0.15` and `0.10` (see `crate::price`).
pub const THRESHOLD_035: u64 = 0x3FD6_6666_6666_6666;
pub const THRESHOLD_030: u64 = 0x3FD3_3333_3333_3333;
pub const THRESHOLD_025: u64 = 0x3FD0_0000_0000_0000;
pub const THRESHOLD_020: u64 = 0x3FC9_9999_9999_999A;
pub const THRESHOLD_015: u64 = 0x3FC3_3333_3333_3333;
pub const THRESHOLD_010: u64 = 0x3FB9_9999_9999_999A;

/// One side of a market: the UP token or the DOWN token.
#[derive(Clone, Copy, Debug, PartialEq, Eq, Structural)]
pub enum Side {
    Up,
    Down,
}

/// What is known of one side against one threshold: whether its price has
/// dropped below the threshold, the highest price seen since it did, and how
/// many minutes were left in the market when it first did.
#[derive(Clone, Copy, Debug, PartialEq, Eq, Structural)]
pub struct DipState {
    pub dipped: bool,
    pub from_price: u64,
    pub minutes_left: Option<i32>,
}

/// The dip records of one side, one per threshold.
#[derive(Clone, Copy, Debug, PartialEq, Eq, Structural)]
pub struct SideDips {
    pub t035: DipState,
    pub t030: DipState,
    pub t025: DipState,
    pub t020: DipState,
    pub t015: DipState,
    pub t010: DipState,
}

/// A market that is being watched: its identity, its window, its two tokens,
/// the latest price of each side, and the dip records of each side.
/// Prices are binary64 bit patterns (see `crate::price`).
pub struct MarketData {
    pub symbol: String,
    pub market_id: String,
    pub slug: String,
    pub title: String,
    pub start_ts: i64,
    pub end_ts: i64,
    pub interval: i64,
    pub up_token_id: String,
    pub down_token_id: String,
    pub last_up_price: u64,
    pub last_down_price: u64,
    pub up: SideDips,
    pub down: SideDips,
    pub result: Option<String>,
}

/// A record with no dip seen yet (its kept price is `0.0`).
pub open spec fn fresh_dip() -> DipState {
    DipState { dipped: false, from_price: ZERO_PRICE, minutes_left: None }
}

pub open spec fn fresh_side() -> SideDips {
    SideDips {
        t035: fresh_dip(),
        t030: fresh_dip(),
        t025: fresh_dip(),
        t020: fresh_dip(),
        t015: fresh_dip(),
        t010: fresh_dip(),
    }
}

/// One price observed against one threshold: the first price below the
/// threshold marks the dip, keeps that price and the minutes left; after
/// that, a higher price raises the kept price. Comparisons are those of `f64`
/// (a NaN price is below nothing and above nothing).
pub open spec fn step_dip(d: DipState, threshold: u64, price: u64, minutes: i32) -> DipState {
    let marked = if price_lt(price, threshold) && !d.dipped {
        DipState { dipped: true, from_price: price, minutes_left: Some(minutes) }
    } else {
        d
    };
    if marked.dipped && price_lt(marked.from_price, price) {
        DipState { from_price: price, ..marked }
    } else {
        marked
    }
}

/// One price observed on a side, against every threshold.
pub open spec fn step_side(s: SideDips, price: u64, minutes: i32) -> SideDips {
    SideDips {
        t035: step_dip(s.t035, THRESHOLD_035, price, minutes),
        t030: step_dip(s.t030, THRESHOLD_030, price, minutes),
        t025: step_dip(s.t025, THRESHOLD_025, price, minutes),
        t020: step_dip(s.t020, THRESHOLD_020, price, minutes),
        t015: step_dip(s.t015, THRESHOLD_015, price, minutes),
        t010: step_dip(s.t010, THRESHOLD_010, price, minutes),
    }
}

/// Integer division rounding towards zero, as Rust's `/` on integers.
pub open spec fn trunc_div(x: int, d: int) -> int {
    if x >= 0 {
        x / d
    } else {
        -((-x) / d)
    }
}

/// Whole minutes from `now` to `end` (rounded towards zero), cast to `i32`.
pub open spec fn minutes_left(end: int, now: int) -> i32 {
    trunc_div(end - now, 60) as i32
}

fn next_dip(d: DipState, threshold: u64, price: u64, minutes: i32) -> (res: DipState)
    ensures
        res == step_dip(d, threshold, price, minutes),
{
    let mut res = d;
    if less_than(price, threshold) && !res.dipped {
        res.dipped = true;
        res.from_price = price;
        res.minutes_left = Some(minutes);
    }
    if res.dipped && less_than(res.from_price, price) {
        res.from_price = price;
    }
    res
}

fn next_side(s: SideDips, price: u64, minutes: i32) -> (res: SideDips)
    ensures
        res == step_side(s, price, minutes),
{
    SideDips {
        t035: next_dip(s.t035, THRESHOLD_035, price, minutes),
        t030: next_dip(s.t030, THRESHOLD_030, price, minutes),
        t025: next_dip(s.t025, THRESHOLD_025, price, minutes),
        t020: next_dip(s.t020, THRESHOLD_020, price, minutes),
        t015: next_dip(s.t015, THRESHOLD_015, price, minutes),
        t010: next_dip(s.t010, THRESHOLD_010, price, minutes),
    }
}

fn fresh_dips() -> (res: SideDips)
    ensures
        res == fresh_side(),
{
    let d = DipState { dipped: false, from_price: ZERO_PRICE, minutes_left: None };
    SideDips { t035: d, t030: d, t025: d, t020: d, t015: d, t010: d }
}

/// The record of one threshold after a run of observed prices, each with the
/// minutes left when it was seen, in order.
pub open spec fn run_dips(d: DipState, threshold: u64, steps: Seq<(u64, i32)>) -> DipState
    decreases steps.len(),
{
    if steps.len() == 0 {
        d
    } else {
        step_dip(run_dips(d, threshold, steps.drop_last()), threshold, steps.last().0, steps.last().1)
    }
}

/// A dip, once seen, stays seen: its minutes do not change and its kept
/// price only changes to a higher one. A price that is not below the
/// threshold never marks one.
pub proof fn lemma_dip_monotone(d: DipState, threshold: u64, price: u64, minutes: i32)
    ensures
        d.dipped ==> step_dip(d, threshold, price, minutes).dipped,
        d.dipped ==> step_dip(d, threshold, price, minutes).minutes_left == d.minutes_left,
        d.dipped ==> step_dip(d, threshold, price, minutes).from_price == d.from_price || price_lt(
            d.from_price,
            step_dip(d, threshold, price, minutes).from_price,
        ),
        !d.dipped && !price_lt(price, threshold) ==> step_dip(d, threshold, price, minutes) == d,
{
}

/// The record after the run is marked at step `k` (the first price below the
/// threshold), with its minutes, and keeps a price that is no NaN, that no
/// later price exceeds, and that one of them is.
pub open spec fn marked_at(r: DipState, threshold: u64, steps: Seq<(u64, i32)>, k: int) -> bool {
    &&& 0 <= k < steps.len()
    &&& price_lt(steps[k].0, threshold)
    &&& forall|j: int| 0 <= j < k ==> !price_lt(#[trigger] steps[j].0, threshold)
    &&& r.minutes_left == Some(steps[k].1)
    &&& !is_nan(r.from_price)
    &&& forall|j: int| k <= j < steps.len() ==> !price_lt(r.from_price, #[trigger] steps[j].0)
    &&& exists|j: int| k <= j < steps.len() && #[trigger] steps[j].0 == r.from_price
}

/// What a threshold's record holds after a run of prices from a fresh record:
/// it is marked exactly when some price was below the threshold (as `f64`
/// compares); it is then marked with the minutes left at the first such price,
/// and keeps the highest price seen from that one on. Unmarked, it is still
/// fresh.
pub proof fn lemma_dip_history(threshold: u64, steps: Seq<(u64, i32)>)
    ensures
        run_dips(fresh_dip(), threshold, steps).dipped <==> exists|i: int|
            0 <= i < steps.len() && price_lt(#[trigger] steps[i].0, threshold),
        !run_dips(fresh_dip(), threshold, steps).dipped ==> run_dips(fresh_dip(), threshold, steps)
            == fresh_dip(),
        run_dips(fresh_dip(), threshold, steps).dipped ==> exists|k: int|
            #[trigger] marked_at(run_dips(fresh_dip(), threshold, steps), threshold, steps, k),
    decreases steps.len(),
{
    if steps.len() > 0 {
        let prev = steps.drop_last();
        lemma_dip_history(threshold, prev);
        let n = steps.len() - 1;
        let (p, m) = steps.last();
        let r0 = run_dips(fresh_dip(), threshold, prev);
        let r = run_dips(fresh_dip(), threshold, steps);
        assert(r == step_dip(r0, threshold, p, m));
        assert(steps[n] == (p, m));
        assert forall|j: int| 0 <= j < n implies #[trigger] steps[j] == prev[j] by {}
        if r0.dipped {
            let k = choose|k: int| #[trigger] marked_at(r0, threshold, prev, k);
            assert(steps[k] == prev[k]);
            assert forall|j: int| 0 <= j < k implies !price_lt(#[trigger] steps[j].0, threshold) by {
                assert(steps[j] == prev[j]);
            }
            assert forall|j: int| k <= j < steps.len() implies !price_lt(
                r.from_price,
                #[trigger] steps[j].0,
            ) by {
                if j < n {
                    assert(steps[j] == prev[j]);
                    assert(!price_lt(r0.from_price, prev[j].0));
                    lemma_lt_order(r0.from_price, r.from_price, prev[j].0);
                    lemma_lt_order(r.from_price, prev[j].0, r0.from_price);
                }
            }
            let w = choose|j: int| k <= j < prev.len() && #[trigger] prev[j].0 == r0.from_price;
            if price_lt(r0.from_price, p) {
                assert(steps[n].0 == r.from_price);
            } else {
                assert(steps[w] == prev[w]);
                assert(steps[w].0 == r.from_price);
            }
            assert(marked_at(r, threshold, steps, k));
        } else {
            assert(forall|i: int| 0 <= i < prev.len() ==> !price_lt(#[trigger] prev[i].0, threshold));
            if price_lt(p, threshold) {
                assert forall|j: int| 0 <= j < n implies !price_lt(#[trigger] steps[j].0, threshold) by {
                    assert(steps[j] == prev[j]);
                }
                assert(steps[n].0 == r.from_price);
                assert(marked_at(r, threshold, steps, n));
            } else {
                assert forall|i: int| 0 <= i < steps.len() implies !price_lt(
                    #[trigger] steps[i].0,
                    threshold,
                ) by {
                    if i < n {
                        assert(steps[i] == prev[i]);
                    }
                }
            }
        }
    }
}

/// A side's records after a run of observed prices, in order.
pub open spec fn run_side(s: SideDips, steps: Seq<(u64, i32)>) -> SideDips
    decreases steps.len(),
{
    if steps.len() == 0 {
        s
    } else {
        step_side(run_side(s, steps.drop_last()), steps.last().0, steps.last().1)
    }
}

/// After a run of prices on a side, each threshold's record is what that
/// threshold alone makes of the run: the thresholds do not interact.
pub proof fn lemma_side_runs_each_threshold(s: SideDips, steps: Seq<(u64, i32)>)
    ensures
        run_side(s, steps).t035 == run_dips(s.t035, THRESHOLD_035, steps),
        run_side(s, steps).t030 == run_dips(s.t030, THRESHOLD_030, steps),
        run_side(s, steps).t025 == run_dips(s.t025, THRESHOLD_025, steps),
        run_side(s, steps).t020 == run_dips(s.t020, THRESHOLD_020, steps),
        run_side(s, steps).t015 == run_dips(s.t015, THRESHOLD_015, steps),
        run_side(s, steps).t010 == run_dips(s.t010, THRESHOLD_010, steps),
    decreases steps.len(),
{
    if steps.len() > 0 {
        lemma_side_runs_each_threshold(s, steps.drop_last());
    }
}

/// A record is marked exactly when it holds minutes; an unmarked record keeps
/// the price `0.0`, a marked one a price that is no NaN.
pub open spec fn dip_consistent(d: DipState) -> bool {
    &&& d.dipped == d.minutes_left is Some
    &&& !d.dipped ==> d.from_price == ZERO_PRICE
    &&& d.dipped ==> !is_nan(d.from_price)
}

/// The records of a lower and a higher threshold agree: a dip below the lower
/// threshold is one below the higher, and the higher keeps a price at least as
/// high.
pub open spec fn below_implies(lower: DipState, higher: DipState) -> bool {
    lower.dipped ==> higher.dipped && price_le(lower.from_price, higher.from_price)
}

/// The records of a side form a ladder: each is consistent, and each
/// threshold's record agrees with the next higher one's (so, step by step,
/// with every higher one).
pub open spec fn ladder_ok(s: SideDips) -> bool {
    &&& dip_consistent(s.t035)
    &&& dip_consistent(s.t030)
    &&& dip_consistent(s.t025)
    &&& dip_consistent(s.t020)
    &&& dip_consistent(s.t015)
    &&& dip_consistent(s.t010)
    &&& below_implies(s.t010, s.t015)
    &&& below_implies(s.t015, s.t020)
    &&& below_implies(s.t020, s.t025)
    &&& below_implies(s.t025, s.t030)
    &&& below_implies(s.t030, s.t035)
}

/// The thresholds rise from `0.10` to `0.35`.
pub proof fn lemma_thresholds_rise()
    ensures
        price_lt(THRESHOLD_010, THRESHOLD_015),
        price_lt(THRESHOLD_015, THRESHOLD_020),
        price_lt(THRESHOLD_020, THRESHOLD_025),
        price_lt(THRESHOLD_025, THRESHOLD_030),
        price_lt(THRESHOLD_030, THRESHOLD_035),
{
}

/// One observed price keeps the records of a lower and a higher threshold
/// in agreement.
proof fn lemma_step_keeps_pair(
    lower: DipState,
    higher: DipState,
    lo: u64,
    hi: u64,
    price: u64,
    minutes: i32,
)
    requires
        price_lt(lo, hi),
        dip_consistent(lower),
        dip_consistent(higher),
        below_implies(lower, higher),
    ensures
        dip_consistent(step_dip(lower, lo, price, minutes)),
        dip_consistent(step_dip(higher, hi, price, minutes)),
        below_implies(step_dip(lower, lo, price, minutes), step_dip(higher, hi, price, minutes)),
{
}

/// One observed price keeps a side's records a ladder.
pub proof fn lemma_step_keeps_ladder(s: SideDips, price: u64, minutes: i32)
    requires
        ladder_ok(s),
    ensures
        ladder_ok(step_side(s, price, minutes)),
{
    lemma_thresholds_rise();
    lemma_step_keeps_pair(s.t010, s.t015, THRESHOLD_010, THRESHOLD_015, price, minutes);
    lemma_step_keeps_pair(s.t015, s.t020, THRESHOLD_015, THRESHOLD_020, price, minutes);
    lemma_step_keeps_pair(s.t020, s.t025, THRESHOLD_020, THRESHOLD_025, price, minutes);
    lemma_step_keeps_pair(s.t025, s.t030, THRESHOLD_025, THRESHOLD_030, price, minutes);
    lemma_step_keeps_pair(s.t030, s.t035, THRESHOLD_030, THRESHOLD_035, price, minutes);
}

/// From fresh records, any run of prices leaves a side's records a ladder:
/// below 0.10 implies below 0.15, and so on up to 0.35, each higher record
/// keeping a price at least as high; and a record is marked exactly when it
/// holds minutes, an unmarked one keeping no price.
pub proof fn lemma_side_ladder(steps: Seq<(u64, i32)>)
    ensures
        ladder_ok(run_side(fresh_side(), steps)),
    decreases steps.len(),
{
    if steps.len() > 0 {
        lemma_side_ladder(steps.drop_last());
        lemma_step_keeps_ladder(
            run_side(fresh_side(), steps.drop_last()),
            steps.last().0,
            steps.last().1,
        );
    }
}

impl MarketData {
    /// Both sides' records form a ladder (see `ladder_ok`). A new market has
    /// it, and recording prices keeps it.
    pub open spec fn wf(&self) -> bool {
        ladder_ok(self.up) && ladder_ok(self.down)
    }

    /// A market that starts being watched at the given prices, with no dip seen.
    pub fn new(
        symbol: String,
        market_id: String,
        slug: String,
        title: String,
        start_ts: i64,
        end_ts: i64,
        interval: i64,
        up_token_id: String,
        down_token_id: String,
        start_up_price: u64,
        start_down_price: u64,
    ) -> (res: Self)
        ensures
            res.symbol == symbol,
            res.market_id == market_id,
            res.slug == slug,
            res.title == title,
            res.start_ts == start_ts,
            res.end_ts == end_ts,
            res.interval == interval,
            res.up_token_id == up_token_id,
            res.down_token_id == down_token_id,
            res.last_up_price == start_up_price,
            res.last_down_price == start_down_price,
            res.up == fresh_side(),
            res.down == fresh_side(),
            res.result is None,
            res.wf(),
    {
        MarketData {
            symbol,
            market_id,
            slug,
            title,
            start_ts,
            end_ts,
            interval,
            up_token_id,
            down_token_id,
            last_up_price: start_up_price,
            last_down_price: start_down_price,
            up: fresh_dips(),
            down: fresh_dips(),
            result: None,
        }
    }

    /// The watched market of a series' window, from its Gamma listing, its
    /// slug, its UP and DOWN token ids and their starting prices.
    pub fn for_listing(
        config: &MarketConfig,
        market: &Market,
        slug: String,
        start_ts: i64,
        end_ts: i64,
        up_token_id: String,
        down_token_id: String,
        start_up_price: u64,
        start_down_price: u64,
    ) -> (res: Self)
        ensures
            res.symbol@ == config.symbol@,
            res.market_id@ == market.id@,
            res.slug == slug,
            res.title@ == market.question@,
            res.start_ts == start_ts,
            res.end_ts == end_ts,
            res.interval == config.interval,
            res.up_token_id == up_token_id,
            res.down_token_id == down_token_id,
            res.last_up_price == start_up_price,
            res.last_down_price == start_down_price,
            res.up == fresh_side(),
            res.down == fresh_side(),
            res.result is None,
            res.wf(),
    {
        MarketData::new(
            config.symbol.clone(),
            market.id.clone(),
            slug,
            market.question.clone(),
            start_ts,
            end_ts,
            config.interval,
            up_token_id,
            down_token_id,
            start_up_price,
            start_down_price,
        )
    }

    /// Records new prices of both sides, observed at `now_ts`: they become the
    /// latest prices and are checked against every threshold of their side.
    pub fn update_prices(&mut self, up: u64, down: u64, now_ts: i64)
        requires
            i64::MIN <= old(self).end_ts - now_ts <= i64::MAX,
        ensures
            final(self).last_up_price == up,
            final(self).last_down_price == down,
            final(self).up == step_side(old(self).up, up, minutes_left(
                old(self).end_ts as int,
                now_ts as int,
            )),
            final(self).down == step_side(old(self).down, down, minutes_left(
                old(self).end_ts as int,
                now_ts as int,
            )),
            final(self).symbol == old(self).symbol,
            final(self).market_id == old(self).market_id,
            final(self).slug == old(self).slug,
            final(self).title == old(self).title,
            final(self).start_ts == old(self).start_ts,
            final(self).end_ts == old(self).end_ts,
            final(self).interval == old(self).interval,
            final(self).up_token_id == old(self).up_token_id,
            final(self).down_token_id == old(self).down_token_id,
            final(self).result == old(self).result,
            old(self).wf() ==> final(self).wf(),
    {
        proof {
            let m = minutes_left(self.end_ts as int, now_ts as int);
            if self.wf() {
                lemma_step_keeps_ladder(self.up, up, m);
                lemma_step_keeps_ladder(self.down, down, m);
            }
        }
        self.last_up_price = up;
        self.last_down_price = down;
        self.update_side(Side::Up, up, now_ts);
        self.update_side(Side::Down, down, now_ts);
    }

    fn update_side(&mut self, side: Side, price: u64, now_ts: i64)
        requires
            i64::MIN <= old(self).end_ts - now_ts <= i64::MAX,
        ensures
            side == Side::Up ==> final(self).up == step_side(old(self).up, price, minutes_left(
                old(self).end_ts as int,
                now_ts as int,
            )) && final(self).down == old(self).down,
            side == Side::Down ==> final(self).down == step_side(
                old(self).down,
                price,
                minutes_left(old(self).end_ts as int, now_ts as int),
            ) && final(self).up == old(self).up,
            final(self).last_up_price == old(self).last_up_price,
            final(self).last_down_price == old(self).last_down_price,
            final(self).symbol == old(self).symbol,
            final(self).market_id == old(self).market_id,
            final(self).slug == old(self).slug,
            final(self).title == old(self).title,
            final(self).start_ts == old(self).start_ts,
            final(self).end_ts == old(self).end_ts,
            final(self).interval == old(self).interval,
            final(self).up_token_id == old(self).up_token_id,
            final(self).down_token_id == old(self).down_token_id,
            final(self).result == old(self).result,
    {
        let diff: i64 = self.end_ts - now_ts;
        let minutes: i32 = (diff / 60) as i32;
        assert(minutes == minutes_left(self.end_ts as int, now_ts as int));
        match side {
            Side::Up => {
                self.up = next_side(self.up, price, minutes);
            },
            Side::Down => {
                self.down = next_side(self.down, price, minutes);
            },
        }
    }
}

} // verus!
