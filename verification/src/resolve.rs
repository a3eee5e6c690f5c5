use vstd::prelude::*;

use crate::price::{lemma_lt_order, less_than, price_lt, ZERO_PRICE};

verus! {

/// The result of a market.
#[derive(Clone, Copy, Debug, PartialEq, Eq, Structural)]
pub enum Outcome {
    /// The UP side won.
    Up,
    /// The DOWN side won.
    Down,
    /// Neither side can be named the winner.
    Unknown,
}

/// What the Gamma API reports of a market: its `closed` flag where it is a
/// boolean, and its `outcomePrices` where it is a list, each entry as the
/// binary64 pattern of the number that Rust's float parsing reads from it
/// where it is a string that parses.
pub struct OfficialReport {
    pub closed: Option<bool>,
    pub outcome_prices: Option<Vec<Option<u64>>>,
}

pub open spec fn resolution_url_text(market_id: Seq<char>) -> Seq<char> {
    "https://gamma-api.polymarket.com/markets/"@ + market_id
}

/// The Gamma API address of one market.
pub fn resolution_url(market_id: &str) -> (url: String)
    ensures
        url@ == resolution_url_text(market_id@),
{
    let mut url = String::from_str("https://gamma-api.polymarket.com/markets/");
    url.append(market_id);
    url
}

/// An official price entry: its price, or `0.0` where it is no string or
/// does not parse.
pub open spec fn spec_official_price(entry: Option<u64>) -> u64 {
    match entry {
        Some(p) => p,
        None => ZERO_PRICE,
    }
}

pub fn official_price(entry: &Option<u64>) -> (p: u64)
    ensures
        p == spec_official_price(*entry),
{
    match entry {
        Some(p) => *p,
        None => ZERO_PRICE,
    }
}

/// The official result: only for a closed market with at least two outcome
/// prices, the side whose price is higher as `f64` compares (the first price
/// is UP's); none when the market is open, the prices are missing, or neither
/// is higher (equal, or a NaN).
pub open spec fn spec_official_outcome(closed: Option<bool>, prices: Option<Seq<Option<u64>>>) -> Option<
    Outcome,
> {
    if closed == Some(true) {
        match prices {
            Some(ps) => if ps.len() >= 2 {
                let p0 = spec_official_price(ps[0]);
                let p1 = spec_official_price(ps[1]);
                if price_lt(p1, p0) {
                    Some(Outcome::Up)
                } else if price_lt(p0, p1) {
                    Some(Outcome::Down)
                } else {
                    None
                }
            } else {
                None
            },
            None => None,
        }
    } else {
        None
    }
}

pub open spec fn report_prices(report: OfficialReport) -> Option<Seq<Option<u64>>> {
    match report.outcome_prices {
        Some(v) => Some(v@),
        None => None,
    }
}

pub fn official_outcome(report: &OfficialReport) -> (res: Option<Outcome>)
    ensures
        res == spec_official_outcome(report.closed, report_prices(*report)),
        // Only a closed market with two prices has an official result, and it
        // names the side whose price is higher (the first price is UP's; an
        // entry that is no number counts as `0.0`).
        res is Some ==> report.closed == Some(true) && (report.outcome_prices matches Some(ps)
            && ps.len() >= 2),
        report.closed == Some(true) && (report.outcome_prices matches Some(ps) && ps.len() >= 2) ==> {
            let ps = report.outcome_prices->0@;
            let p0 = match ps[0] {
                Some(p) => p,
                None => ZERO_PRICE,
            };
            let p1 = match ps[1] {
                Some(p) => p,
                None => ZERO_PRICE,
            };
            &&& price_lt(p1, p0) ==> res == Some(Outcome::Up)
            &&& price_lt(p0, p1) ==> res == Some(Outcome::Down)
            &&& !price_lt(p1, p0) && !price_lt(p0, p1) ==> res is None
        },
{
    if report.closed != Some(true) {
        return None;
    }
    match &report.outcome_prices {
        Some(prices) => {
            if prices.len() < 2 {
                return None;
            }
            let p0 = official_price(&prices[0]);
            let p1 = official_price(&prices[1]);
            if less_than(p1, p0) {
                Some(Outcome::Up)
            } else if less_than(p0, p1) {
                Some(Outcome::Down)
            } else {
                None
            }
        },
        None => None,
    }
}

/// The result from the prices this watcher tracked: the side with the higher
/// last price as `f64` compares; `Unknown` when neither is higher.
pub open spec fn spec_tracked_outcome(up: u64, down: u64) -> Outcome {
    if price_lt(down, up) {
        Outcome::Up
    } else if price_lt(up, down) {
        Outcome::Down
    } else {
        Outcome::Unknown
    }
}

pub fn tracked_outcome(up: u64, down: u64) -> (res: Outcome)
    ensures
        res == spec_tracked_outcome(up, down),
        // The side whose price is higher wins; neither higher gives `Unknown`.
        price_lt(down, up) ==> res == Outcome::Up,
        price_lt(up, down) ==> res == Outcome::Down,
        !price_lt(down, up) && !price_lt(up, down) ==> res == Outcome::Unknown,
{
    if less_than(down, up) {
        Outcome::Up
    } else if less_than(up, down) {
        Outcome::Down
    } else {
        Outcome::Unknown
    }
}

/// The tracked result names the side whose price is higher, as `f64`
/// compares, and `Unknown` exactly where neither is higher; the two sides are
/// treated alike (swapping the prices swaps the result).
pub proof fn lemma_tracked_names_higher_side(up: u64, down: u64)
    ensures
        price_lt(down, up) ==> spec_tracked_outcome(up, down) == Outcome::Up,
        price_lt(up, down) ==> spec_tracked_outcome(up, down) == Outcome::Down,
        (spec_tracked_outcome(up, down) == Outcome::Unknown) <==> (!price_lt(down, up) && !price_lt(
            up,
            down,
        )),
        spec_tracked_outcome(up, down) == Outcome::Up <==> spec_tracked_outcome(down, up)
            == Outcome::Down,
{
    lemma_lt_order(up, down, up);
}

/// The result of a market: the official one when the report gives one, else
/// the one from the tracked prices.
pub open spec fn spec_resolve(report: Option<OfficialReport>, up: u64, down: u64) -> Outcome {
    match report {
        Some(r) => match spec_official_outcome(r.closed, report_prices(r)) {
            Some(o) => o,
            None => spec_tracked_outcome(up, down),
        },
        None => spec_tracked_outcome(up, down),
    }
}

/// Resolves a market from the official report (`None` where it could not be
/// fetched or read) and the last tracked prices of both sides.
pub fn resolve_outcome(report: &Option<OfficialReport>, up: u64, down: u64) -> (res: Outcome)
    ensures
        res == spec_resolve(*report, up, down),
        // The official result wins where there is one; else the tracked side
        // whose price is higher, `Unknown` where neither is.
        match *report {
            Some(r) => spec_official_outcome(r.closed, report_prices(r)) is Some ==> res
                == spec_official_outcome(r.closed, report_prices(r))->0,
            None => true,
        },
        (report is None || spec_official_outcome(report->0.closed, report_prices(report->0)) is None)
            ==> {
            &&& price_lt(down, up) ==> res == Outcome::Up
            &&& price_lt(up, down) ==> res == Outcome::Down
            &&& !price_lt(down, up) && !price_lt(up, down) ==> res == Outcome::Unknown
        },
{
    match report {
        Some(r) => match official_outcome(r) {
            Some(o) => o,
            None => tracked_outcome(up, down),
        },
        None => tracked_outcome(up, down),
    }
}

pub open spec fn outcome_text(o: Outcome) -> Seq<char> {
    match o {
        Outcome::Up => "UP"@,
        Outcome::Down => "DOWN"@,
        Outcome::Unknown => "UNKNOWN"@,
    }
}

impl Outcome {
    /// The text stored for a result: `UP`, `DOWN` or `UNKNOWN`.
    pub fn as_text(&self) -> (s: String)
        ensures
            s@ == outcome_text(*self),
    {
        match self {
            Outcome::Up => String::from_str("UP"),
            Outcome::Down => String::from_str("DOWN"),
            Outcome::Unknown => String::from_str("UNKNOWN"),
        }
    }
}

} // verus!
