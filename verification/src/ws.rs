use vstd::prelude::*;

verus! {

/// Seconds after a market's end during which its price updates are still taken.
pub const EXPIRY_GRACE_SECS: i64 = 5;

/// The fields of a price stream message text that matter here, each where it
/// is a string: `event_type`, `asset_id` and `price`.
pub struct MessageFields {
    pub event_type: Option<String>,
    pub asset_id: Option<String>,
    pub price: Option<String>,
}

/// A message of the price stream as it is taken in: its event type and asset
/// id, and its price as the binary64 pattern of the number that Rust's float
/// parsing reads from the price text, where there is one and it parses.
pub struct TradeEvent {
    pub event_type: Option<String>,
    pub asset_id: Option<String>,
    pub price: Option<u64>,
}

/// The latest trade price seen of the UP token and of the DOWN token.
#[derive(Clone, Copy, Debug, PartialEq, Eq, Structural)]
pub struct LatestPrices {
    pub up: Option<u64>,
    pub down: Option<u64>,
}

pub open spec fn opt_view(o: Option<String>) -> Option<Seq<char>> {
    match o {
        Some(s) => Some(s@),
        None => None,
    }
}

/// The string at `key` in the JSON object that a message text holds, as
/// `serde_json` reads it; `None` where the text is no JSON, is no object, or
/// holds no string at `key`.
pub uninterp spec fn json_str_field(text: Seq<char>, key: Seq<char>) -> Option<Seq<char>>;

/// Calls `serde_json::from_str::<serde_json::Value>` on a message text and
/// reads the string at `key` (indexing a `Value` by a key gives `Null`, never
/// a panic, where the value is no object or lacks the key). The result depends
/// on the text and the key alone; JSON's grammar is not stated.
#[verifier::external_body]
fn json_string_field(text: &str, key: &str) -> (res: Option<String>)
    ensures
        opt_view(res) == json_str_field(text@, key@),
{
    serde_json::from_str::<serde_json::Value>(text).ok().and_then(|v| v[key].as_str().map(String::from))
}

/// The fields of a price stream message text that matter here.
pub fn message_fields(text: &str) -> (f: MessageFields)
    ensures
        opt_view(f.event_type) == json_str_field(text@, "event_type"@),
        opt_view(f.asset_id) == json_str_field(text@, "asset_id"@),
        opt_view(f.price) == json_str_field(text@, "price"@),
{
    MessageFields {
        event_type: json_string_field(text, "event_type"),
        asset_id: json_string_field(text, "asset_id"),
        price: json_string_field(text, "price"),
    }
}

/// The asset and price of a message: only a `last_trade_price` event with an
/// asset id and a price counts.
pub open spec fn spec_trade(
    event_type: Option<Seq<char>>,
    asset_id: Option<Seq<char>>,
    price: Option<u64>,
) -> Option<(Seq<char>, u64)> {
    if event_type == Some("last_trade_price"@) {
        match (asset_id, price) {
            (Some(a), Some(p)) => Some((a, p)),
            _ => None,
        }
    } else {
        None
    }
}

pub open spec fn event_trade(e: TradeEvent) -> Option<(Seq<char>, u64)> {
    spec_trade(opt_view(e.event_type), opt_view(e.asset_id), e.price)
}

/// The latest prices after a trade of `asset` at `price`.
pub open spec fn record_spec(
    prices: LatestPrices,
    asset: Seq<char>,
    price: u64,
    up_id: Seq<char>,
    down_id: Seq<char>,
) -> LatestPrices {
    LatestPrices {
        up: if asset == up_id {
            Some(price)
        } else {
            prices.up
        },
        down: if asset == down_id {
            Some(price)
        } else {
            prices.down
        },
    }
}

/// A trade changes only the latest price of its own asset, and sets it to the
/// traded price; a trade of neither token changes nothing.
pub proof fn lemma_trade_touches_own_asset(
    prices: LatestPrices,
    asset: Seq<char>,
    price: u64,
    up_id: Seq<char>,
    down_id: Seq<char>,
)
    ensures
        asset == up_id ==> record_spec(prices, asset, price, up_id, down_id).up == Some(price),
        asset != up_id ==> record_spec(prices, asset, price, up_id, down_id).up == prices.up,
        asset == down_id ==> record_spec(prices, asset, price, up_id, down_id).down == Some(price),
        asset != down_id ==> record_spec(prices, asset, price, up_id, down_id).down == prices.down,
        asset != up_id && asset != down_id ==> record_spec(prices, asset, price, up_id, down_id)
            == prices,
{
}

fn is_trade_event(event_type: &Option<String>) -> (b: bool)
    ensures
        b == (opt_view(*event_type) == Some("last_trade_price"@)),
{
    match event_type {
        Some(t) => *t == String::from_str("last_trade_price"),
        None => false,
    }
}

/// Takes in one message of the price stream. A trade of the UP or DOWN token
/// becomes that token's latest price; other messages change nothing. Returns
/// both latest prices when this message was a trade and both are now known.
pub fn record_trade(
    prices: &mut LatestPrices,
    event: &TradeEvent,
    up_id: &String,
    down_id: &String,
) -> (res: Option<(u64, u64)>)
    ensures
        match event_trade(*event) {
            Some((asset, p)) => {
                &&& *final(prices) == record_spec(*old(prices), asset, p, up_id@, down_id@)
                &&& res == match (final(prices).up, final(prices).down) {
                    (Some(u), Some(d)) => Some((u, d)),
                    _ => None,
                }
            },
            None => *final(prices) == *old(prices) && res is None,
        },
        // A trade changes only the latest price of its own asset: the UP price
        // only on a trade of the UP token, the DOWN price only on one of the
        // DOWN token.
        ({
            let is_trade = opt_view(event.event_type) == Some("last_trade_price"@)
                && event.asset_id is Some && event.price is Some;
            let asset = event.asset_id->0@;
            let p = event.price->0;
            &&& is_trade ==> final(prices).up == (if asset == up_id@ {
                Some(p)
            } else {
                old(prices).up
            })
            &&& is_trade ==> final(prices).down == (if asset == down_id@ {
                Some(p)
            } else {
                old(prices).down
            })
            &&& !is_trade ==> *final(prices) == *old(prices) && res is None
        }),
        // Both latest prices are handed on, once both are known.
        res matches Some((u, d)) ==> final(prices).up == Some(u) && final(prices).down == Some(d),
        res is None ==> (final(prices).up is None || final(prices).down is None || !(opt_view(
            event.event_type,
        ) == Some("last_trade_price"@) && event.asset_id is Some && event.price is Some)),
{
    if !is_trade_event(&event.event_type) {
        return None;
    }
    let asset = match &event.asset_id {
        Some(a) => a,
        None => {
            return None;
        },
    };
    let price = match event.price {
        Some(p) => p,
        None => {
            return None;
        },
    };
    if *asset == *up_id {
        prices.up = Some(price);
    }
    if *asset == *down_id {
        prices.down = Some(price);
    }
    match (prices.up, prices.down) {
        (Some(u), Some(d)) => Some((u, d)),
        _ => None,
    }
}

/// Whether price updates still belong to the watched market: it has not been
/// over for more than `EXPIRY_GRACE_SECS`, and it is still the market that the
/// stream was opened for.
pub fn market_still_open(
    now: i64,
    end_ts: i64,
    market_id: &String,
    expected_market_id: &String,
) -> (open: bool)
    requires
        end_ts + EXPIRY_GRACE_SECS <= i64::MAX,
    ensures
        open == (now <= end_ts + EXPIRY_GRACE_SECS && market_id@ == expected_market_id@),
{
    if now > end_ts + EXPIRY_GRACE_SECS {
        false
    } else if *market_id != *expected_market_id {
        false
    } else {
        true
    }
}

} // verus!
