use vstd::prelude::*;

use crate::text::push_int;
use crate::text::{ascii_lower_text, int_text, is_ascii_text, to_lowercase};
use crate::time::slug_text;

verus! {

/// A market series that is watched: its symbol, the prefix of its slugs, the
/// length of its windows in seconds, and whether it is active.
pub struct MarketConfig {
    pub symbol: String,
    pub slug_prefix: String,
    pub interval: i64,
    pub active: bool,
}

/// Symbols and slug prefixes of the watched markets, in order.
pub open spec fn all_markets_spec() -> Seq<(Seq<char>, Seq<char>)> {
    seq![("BTC"@, "btc"@), ("ETH"@, "eth"@), ("SOL"@, "sol"@), ("XRP"@, "xrp"@)]
}

/// The slug prefix of each watched market is its symbol in lower case.
pub proof fn lemma_prefixes_are_lowercase_symbols()
    ensures
        forall|i: int|
            0 <= i < all_markets_spec().len() ==> #[trigger] all_markets_spec()[i].1
                == ascii_lower_text(all_markets_spec()[i].0),
{
    reveal_strlit("BTC");
    reveal_strlit("btc");
    reveal_strlit("ETH");
    reveal_strlit("eth");
    reveal_strlit("SOL");
    reveal_strlit("sol");
    reveal_strlit("XRP");
    reveal_strlit("xrp");
    assert("btc"@ =~= ascii_lower_text("BTC"@));
    assert("eth"@ =~= ascii_lower_text("ETH"@));
    assert("sol"@ =~= ascii_lower_text("SOL"@));
    assert("xrp"@ =~= ascii_lower_text("XRP"@));
}

/// `c` is the configuration that `MarketConfig::new(symbol, prefix)` makes.
pub open spec fn is_default_config(c: MarketConfig, symbol: Seq<char>, prefix: Seq<char>) -> bool {
    &&& c.symbol@ == symbol
    &&& c.slug_prefix@ == prefix
    &&& c.interval == 900
    &&& c.active
}

impl MarketConfig {
    /// An active fifteen-minute market series.
    pub fn new(symbol: &str, slug_prefix: &str) -> (res: Self)
        ensures
            is_default_config(res, symbol@, slug_prefix@),
    {
        MarketConfig {
            symbol: String::from_str(symbol),
            slug_prefix: String::from_str(slug_prefix),
            interval: 900,
            active: true,
        }
    }

    /// The slug of this series' market that starts at `window_ts`.
    pub fn generate_slug(&self, window_ts: i64) -> (slug: String)
        ensures
            slug@ == slug_text(self.slug_prefix@, window_ts as int),
            is_ascii_text(self.slug_prefix@) ==> slug@ == ascii_lower_text(self.slug_prefix@)
                + "-updown-15m-"@ + int_text(window_ts as int),
    {
        let mut slug = to_lowercase(self.slug_prefix.as_str());
        slug.append("-updown-15m-");
        push_int(&mut slug, window_ts);
        slug
    }
}

/// The configurations of all watched markets: BTC, ETH, SOL and XRP.
pub fn get_all_markets() -> (res: Vec<MarketConfig>)
    ensures
        res.len() == all_markets_spec().len(),
        forall|i: int|
            0 <= i < res.len() ==> is_default_config(
                #[trigger] res[i],
                all_markets_spec()[i].0,
                all_markets_spec()[i].1,
            ),
{
    let res = vec![
        MarketConfig::new("BTC", "btc"),
        MarketConfig::new("ETH", "eth"),
        MarketConfig::new("SOL", "sol"),
        MarketConfig::new("XRP", "xrp"),
    ];
    res
}

/// The configuration of the watched market with the given symbol, if any.
pub fn get_market_by_symbol(symbol: &str) -> (res: Option<MarketConfig>)
    ensures
        res is Some <==> exists|i: int|
            0 <= i < all_markets_spec().len() && #[trigger] all_markets_spec()[i].0 == symbol@,
        res matches Some(c) ==> exists|i: int|
            0 <= i < all_markets_spec().len() && all_markets_spec()[i].0 == symbol@
                && #[trigger] is_default_config(c, symbol@, all_markets_spec()[i].1),
        res matches Some(c) ==> c.slug_prefix@ == ascii_lower_text(symbol@),
{
    let mut all = get_all_markets();
    let wanted = String::from_str(symbol);
    let n = all.len();
    let mut i: usize = 0;
    while i < n
        invariant
            n == all.len() == all_markets_spec().len(),
            wanted@ == symbol@,
            i <= n,
            forall|j: int|
                0 <= j < all.len() ==> is_default_config(
                    #[trigger] all[j],
                    all_markets_spec()[j].0,
                    all_markets_spec()[j].1,
                ),
            forall|j: int| 0 <= j < i ==> #[trigger] all_markets_spec()[j].0 != symbol@,
        decreases n - i,
    {
        if all[i].symbol == wanted {
            proof {
                lemma_prefixes_are_lowercase_symbols();
            }
            let found = all.remove(i);
            let r = Some(found);
            assert(r->0 == found);
            assert(is_default_config(r->0, symbol@, all_markets_spec()[i as int].1));
            return r;
        }
        i = i + 1;
    }
    None
}

} // verus!
