# updown_watcher

Watches the fifteen-minute BTC, ETH, SOL and XRP "up or down" markets: finds
the market of each window, follows the prices of its UP and DOWN tokens,
records when a side's price first drops below each of the thresholds
0.35, 0.30, 0.25, 0.20, 0.15 and 0.10 (and how high it climbs afterwards),
and settles the market when its window ends.

Layout:

- `src/` — the library: functions with contracts and proofs, checked by
  Verus; the clock, JSON decoding and lower-casing are reached through
  trusted wrappers whose contracts state what is assumed of them.
  - `time.rs`: windows and slugs; the clock reading.
  - `text.rs`: decimal rendering of integers; lower-casing.
  - `price.rs`: prices, held as the bit patterns of the `f64` values that
    Rust's float parsing reads from price texts, and their order.
  - `market.rs`: a watched market and its threshold records.
  - `config.rs`: the watched market series.
  - `gamma.rs`, `clob.rs`, `resolve.rs`, `ws.rs`: what is asked of the
    market APIs and what their answers decide.
  - `manager.rs`: the per-series step machine (which market to look up,
    when to prepare the next one, when to settle) and the set of series.
- `tests/` — tests of the library on concrete values.
- `app/` — the program: HTTP and WebSocket clients, reading price texts as
  `f64` (floating point, which the library cannot hold), PostgreSQL storage, and
  the loop that performs the steps the library decides.
