use vstd::prelude::*;

use crate::text::{lowercase, to_lowercase};

verus! {

/// A market as the Gamma API describes it. `clob_token_ids` and `outcomes`
/// are JSON texts of string lists (such as `["Up", "Down"]`), paired by position.
pub struct Market {
    pub id: String,
    pub question: String,
    pub clob_token_ids: String,
    pub outcomes: String,
    pub active: bool,
    pub closed: bool,
}

/// Number of times a market is looked up before giving up.
pub const MAX_FETCH_ATTEMPTS: u32 = 10;

/// Seconds to wait after a lookup that found nothing.
pub const RETRY_DELAY_SECS: u64 = 3;

/// The Gamma API address that lists the markets with a slug.
pub open spec fn market_url_text(slug: Seq<char>) -> Seq<char> {
    "https://gamma-api.polymarket.com/markets?slug="@ + slug
}

/// The address of the market lookup by slug (the slug is put in as it is).
pub fn market_url(slug: &str) -> (url: String)
    ensures
        url@ == market_url_text(slug@),
{
    let mut url = String::from_str("https://gamma-api.polymarket.com/markets?slug=");
    url.append(slug);
    url
}

/// What is done after one lookup of a market.
#[derive(Clone, Copy, Debug, PartialEq, Eq, Structural)]
pub enum RetryStep {
    /// The market was found: hand it back.
    Found,
    /// Not found yet: wait `RETRY_DELAY_SECS`, then look again.
    RetryAfterDelay,
    /// Not found, and this was the last attempt: wait, then give up.
    GiveUpAfterDelay,
}

/// The decision after lookup number `attempt` (counted from 1), which found
/// the market or not. A market is looked up at most `MAX_FETCH_ATTEMPTS` times.
pub fn retry_step(attempt: u32, found: bool) -> (step: RetryStep)
    requires
        1 <= attempt <= MAX_FETCH_ATTEMPTS,
    ensures
        found ==> step == RetryStep::Found,
        !found && attempt < MAX_FETCH_ATTEMPTS ==> step == RetryStep::RetryAfterDelay,
        !found && attempt == MAX_FETCH_ATTEMPTS ==> step == RetryStep::GiveUpAfterDelay,
{
    if found {
        RetryStep::Found
    } else if attempt < MAX_FETCH_ATTEMPTS {
        RetryStep::RetryAfterDelay
    } else {
        RetryStep::GiveUpAfterDelay
    }
}

#[verifier::external_type_specification]
#[verifier::external_body]
pub struct ExJsonError(serde_json::Error);

/// The list of strings that a JSON text holds, as `serde_json` reads it into a
/// `Vec<String>`; `None` where it reads no such list.
pub uninterp spec fn json_string_list(text: Seq<char>) -> Option<Seq<Seq<char>>>;

pub open spec fn strings_view(v: Seq<String>) -> Seq<Seq<char>> {
    v.map_values(|x: String| x@)
}

/// Calls `serde_json::from_str::<Vec<String>>`. The result depends on the text
/// alone: it succeeds exactly when `json_string_list` names a list, and then
/// holds that list. JSON's grammar and escapes are not stated.
#[verifier::external_body]
fn parse_string_list(text: &str) -> (res: Result<Vec<String>, serde_json::Error>)
    ensures
        res is Ok <==> json_string_list(text@) is Some,
        res matches Ok(v) ==> strings_view(v@) == json_string_list(text@)->0,
{
    serde_json::from_str::<Vec<String>>(text)
}

/// The token of the last outcome among the first `n` whose lower-cased text is
/// `label`; empty when there is none.
pub open spec fn pick_token(
    tokens: Seq<Seq<char>>,
    outcomes: Seq<Seq<char>>,
    label: Seq<char>,
    n: int,
) -> Seq<char>
    decreases n,
{
    if n <= 0 {
        Seq::empty()
    } else if lowercase(outcomes[n - 1]) == label {
        tokens[n - 1]
    } else {
        pick_token(tokens, outcomes, label, n - 1)
    }
}

/// The UP and DOWN tokens of a market with these token ids and outcomes: there
/// must be exactly two of each, and both an `up` and a `down` outcome (in any
/// letter case) with a non-empty token.
pub open spec fn spec_select_tokens(tokens: Seq<Seq<char>>, outcomes: Seq<Seq<char>>) -> Option<
    (Seq<char>, Seq<char>),
> {
    if tokens.len() != 2 || outcomes.len() != 2 {
        None
    } else {
        let up = pick_token(tokens, outcomes, "up"@, 2);
        let down = pick_token(tokens, outcomes, "down"@, 2);
        if up.len() == 0 || down.len() == 0 {
            None
        } else {
            Some((up, down))
        }
    }
}

pub open spec fn pair_view(p: Option<(String, String)>) -> Option<(Seq<char>, Seq<char>)> {
    match p {
        Some((a, b)) => Some((a@, b@)),
        None => None,
    }
}

/// The UP and DOWN token ids, picked from parsed token ids and outcomes.
pub fn select_token_ids(tokens: &Vec<String>, outcomes: &Vec<String>) -> (res: Option<
    (String, String),
>)
    ensures
        pair_view(res) == spec_select_tokens(strings_view(tokens@), strings_view(outcomes@)),
{
    let ghost tv = strings_view(tokens@);
    let ghost ov = strings_view(outcomes@);
    if tokens.len() != 2 || outcomes.len() != 2 {
        return None;
    }
    let up_label = String::from_str("up");
    let down_label = String::from_str("down");
    let mut up = String::new();
    let mut down = String::new();
    let n = outcomes.len();
    let mut i: usize = 0;
    while i < n
        invariant
            n == outcomes.len() == tokens.len() == 2,
            tv == strings_view(tokens@),
            ov == strings_view(outcomes@),
            up_label@ == "up"@,
            down_label@ == "down"@,
            i <= n,
            up@ == pick_token(tv, ov, "up"@, i as int),
            down@ == pick_token(tv, ov, "down"@, i as int),
        decreases n - i,
    {
        let lower = to_lowercase(outcomes[i].as_str());
        assert(ov[i as int] == outcomes@[i as int]@);
        assert(tv[i as int] == tokens@[i as int]@);
        proof {
            reveal_strlit("up");
            reveal_strlit("down");
            assert("up"@ != "down"@) by {
                assert("up"@.len() != "down"@.len());
            }
        }
        if lower == up_label {
            up = tokens[i].clone();
        } else if lower == down_label {
            down = tokens[i].clone();
        }
        i = i + 1;
    }
    if up.unicode_len() == 0 || down.unicode_len() == 0 {
        return None;
    }
    Some((up, down))
}

/// The UP and DOWN token ids of a market: both of its JSON lists must parse,
/// and the picked pair must satisfy `spec_select_tokens`.
pub fn extract_token_ids(market: &Market) -> (res: Option<(String, String)>)
    ensures
        pair_view(res) == match (
            json_string_list(market.clob_token_ids@),
            json_string_list(market.outcomes@),
        ) {
            (Some(tokens), Some(outcomes)) => spec_select_tokens(tokens, outcomes),
            _ => None,
        },
{
    let tokens = match parse_string_list(market.clob_token_ids.as_str()) {
        Ok(t) => t,
        Err(_) => {
            return None;
        },
    };
    let outcomes = match parse_string_list(market.outcomes.as_str()) {
        Ok(o) => o,
        Err(_) => {
            return None;
        },
    };
    select_token_ids(&tokens, &outcomes)
}

} // verus!
