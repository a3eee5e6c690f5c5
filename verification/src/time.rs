use vstd::prelude::*;

use crate::text::{ascii_lower_text, int_text, is_ascii_text, lowercase, push_int, to_lowercase};

verus! {

/// Length of one market window, in seconds (fifteen minutes).
pub const INTERVAL_15MINS: i64 = 900;

/// Bound on the timestamps that the clock can report: chrono's calendar spans
/// the years -262143 to 262142, well within `10^13` seconds of the epoch.
pub const MAX_CLOCK_TS: i64 = 10_000_000_000_000;

/// Start of the window that holds `now`: `now` rounded towards zero to a
/// multiple of the window length, as Rust's truncating `%` does.
pub open spec fn spec_window_start(now: int) -> int {
    if now >= 0 {
        now - now % 900
    } else {
        now + (-now) % 900
    }
}

/// The slug of a market: the lower-cased prefix, `-updown-15m-`, and the
/// window's start time in decimal.
pub open spec fn slug_text(prefix: Seq<char>, window_ts: int) -> Seq<char> {
    lowercase(prefix) + "-updown-15m-"@ + int_text(window_ts)
}

/// Seconds since the Unix epoch (negative before it), read from the system
/// clock and converted by `chrono`'s `From<SystemTime> for DateTime<Utc>`,
/// then `DateTime::timestamp`. The conversion handles clocks before the epoch;
/// it panics only for a clock outside chrono's calendar (hundreds of thousands
/// of years away), which this contract does not exclude. Nothing ties two
/// readings together; the contract states the range that the calendar allows.
#[verifier::external_body]
pub fn now_ts() -> (ts: i64)
    ensures
        -MAX_CLOCK_TS < ts < MAX_CLOCK_TS,
{
    chrono::DateTime::<chrono::Utc>::from(std::time::SystemTime::now()).timestamp()
}

/// Start of the fifteen-minute window that holds `now`.
pub fn current_window_ts(now: i64) -> (start: i64)
    ensures
        start == spec_window_start(now as int),
{
    now - (now % INTERVAL_15MINS)
}

/// End of the window that starts at `window_start`.
pub fn window_end_ts(window_start: i64) -> (end: i64)
    requires
        window_start + INTERVAL_15MINS <= i64::MAX,
    ensures
        end == window_start + INTERVAL_15MINS,
{
    window_start + INTERVAL_15MINS
}

/// The slug of the fifteen-minute market of `symbol` that starts at `window_ts`.
pub fn generate_slug(symbol: &str, window_ts: i64) -> (slug: String)
    ensures
        slug@ == slug_text(symbol@, window_ts as int),
        is_ascii_text(symbol@) ==> slug@ == ascii_lower_text(symbol@) + "-updown-15m-"@ + int_text(
            window_ts as int,
        ),
{
    let mut slug = to_lowercase(symbol);
    slug.append("-updown-15m-");
    push_int(&mut slug, window_ts);
    slug
}

/// The window that holds a non-negative time starts at or before it, ends
/// after it, and starts at a multiple of the window length.
pub proof fn lemma_window_holds_time(now: int)
    requires
        now >= 0,
    ensures
        spec_window_start(now) <= now < spec_window_start(now) + 900,
        spec_window_start(now) % 900 == 0,
        spec_window_start(now) >= 0,
{
}

/// Taking the window of a window's start changes nothing.
pub proof fn lemma_window_start_idempotent(now: int)
    ensures
        spec_window_start(spec_window_start(now)) == spec_window_start(now),
{
    if now >= 0 {
        assert((now - now % 900) % 900 == 0) by (nonlinear_arith);
    } else {
        assert((now + (-now) % 900) <= 0);
        assert((-(now + (-now) % 900)) % 900 == 0) by (nonlinear_arith);
    }
}

/// Two times in the same window share its start, and the next window starts
/// where this one ends.
pub proof fn lemma_window_neighbours(a: int, b: int)
    requires
        a >= 0,
        b >= 0,
    ensures
        spec_window_start(a) <= b < spec_window_start(a) + 900 ==> spec_window_start(b)
            == spec_window_start(a),
        b == spec_window_start(a) + 900 ==> spec_window_start(b) == b,
{
    lemma_window_holds_time(a);
    lemma_window_holds_time(b);
}

} // verus!
