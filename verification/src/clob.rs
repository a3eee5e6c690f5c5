use vstd::prelude::*;

use crate::price::HALF_PRICE;

verus! {

/// The price used when neither the midpoint nor the last trade is known: the
/// binary64 pattern of `0.5`.
pub const DEFAULT_PRICE: u64 = HALF_PRICE;

pub open spec fn midpoint_url_text(token_id: Seq<char>) -> Seq<char> {
    "https://clob.polymarket.com/midpoint?token_id="@ + token_id
}

pub open spec fn last_trade_url_text(token_id: Seq<char>) -> Seq<char> {
    "https://clob.polymarket.com/last-trade?token_id="@ + token_id
}

/// The CLOB API address of a token's midpoint price (the average of the best
/// bid and ask).
pub fn midpoint_url(token_id: &str) -> (url: String)
    ensures
        url@ == midpoint_url_text(token_id@),
{
    let mut url = String::from_str("https://clob.polymarket.com/midpoint?token_id=");
    url.append(token_id);
    url
}

/// The CLOB API address of a token's last trade price.
pub fn last_trade_url(token_id: &str) -> (url: String)
    ensures
        url@ == last_trade_url_text(token_id@),
{
    let mut url = String::from_str("https://clob.polymarket.com/last-trade?token_id=");
    url.append(token_id);
    url
}

/// The starting price of a token: the midpoint when it is known, else the
/// last trade price when that is known, else `DEFAULT_PRICE`. The last trade
/// is only looked at when there is no midpoint.
pub fn choose_initial_price(midpoint: Option<u64>, last_trade: Option<u64>) -> (price: u64)
    ensures
        price == match midpoint {
            Some(m) => m,
            None => match last_trade {
                Some(t) => t,
                None => DEFAULT_PRICE,
            },
        },
{
    if let Some(m) = midpoint {
        return m;
    }
    if let Some(t) = last_trade {
        return t;
    }
    DEFAULT_PRICE
}

} // verus!
