//! Paid hints: only in casual and custom matches that are still running, only
//! for the two players, at most two per player and match; the first costs one
//! coin, the second two, or nothing when unlocked by an ad.
use vstd::prelude::*;

use super::errors::GameError;
use crate::text::{i64_text, spec_i64_text};

verus! {

/// Hints a player may use in one match.
pub const MAX_HINTS_PER_MATCH: i64 = 2;

pub struct HintRequest {
    pub match_id: String,
    /// Set when the player unlocked the hint by watching an ad instead of paying.
    pub paid_via_ad: bool,
}

pub struct HintResponse {
    /// UCI text, such as `e2e4`.
    pub move_suggested: String,
    pub coin_balance: i64,
}

/// The match as the hint flow reads it.
pub struct HintMatch {
    pub match_type: String,
    pub player_white_id: String,
    pub player_black_id: String,
    pub status: String,
}

pub open spec fn spec_hint_cost(usage_number: i32) -> i64 {
    if usage_number == 1 {
        1
    } else if usage_number == 2 {
        2
    } else {
        0
    }
}

/// Coins charged for the `usage_number`-th hint (1-based) of a match.
pub fn hint_cost(usage_number: i32) -> (c: i64)
    ensures
        c == spec_hint_cost(usage_number),
{
    match usage_number {
        1 => 1,
        2 => 2,
        _ => 0,
    }
}

pub open spec fn spec_hint_eligibility(
    m: HintMatch,
    user_id: Seq<char>,
    used_count: i64,
) -> Result<i32, GameError> {
    if m.status@ != "in_progress"@ {
        Err(GameError::MatchAlreadyEnded)
    } else if m.match_type@ == "ranked"@ {
        Err(GameError::HintNotAllowedInRanked)
    } else if user_id != m.player_white_id@ && user_id != m.player_black_id@ {
        Err(GameError::Unauthorized)
    } else if used_count >= MAX_HINTS_PER_MATCH {
        Err(GameError::HintLimitReached)
    } else {
        Ok((used_count + 1) as i32)
    }
}

/// Whether `user_id` may take another hint in match `m`, having taken
/// `used_count` there already; `Ok` carries the number of this hint.
pub fn hint_eligibility(m: &HintMatch, user_id: &str, used_count: i64) -> (r: Result<i32, GameError>)
    requires
        used_count >= 0,
    ensures
        r == spec_hint_eligibility(*m, user_id@, used_count),
{
    if !m.status.as_str().eq("in_progress") {
        return Err(GameError::MatchAlreadyEnded);
    }
    if m.match_type.as_str().eq("ranked") {
        return Err(GameError::HintNotAllowedInRanked);
    }
    if !user_id.eq(m.player_white_id.as_str()) && !user_id.eq(m.player_black_id.as_str()) {
        return Err(GameError::Unauthorized);
    }
    if used_count >= MAX_HINTS_PER_MATCH {
        return Err(GameError::HintLimitReached);
    }
    Ok((used_count + 1) as i32)
}

/// How a hint is paid for: the wallet change and the coins recorded as spent.
#[derive(Debug, Clone, Copy, PartialEq, Eq, Structural)]
pub struct HintCharge {
    pub ledger_amount: i64,
    pub coins_spent: i64,
}

pub open spec fn spec_hint_charge(paid_via_ad: bool, balance: i64, cost: i64) -> Result<
    HintCharge,
    GameError,
> {
    if paid_via_ad {
        Ok(HintCharge { ledger_amount: 0, coins_spent: 0 })
    } else if balance < cost {
        Err(GameError::InsufficientCoinsForHint)
    } else {
        Ok(HintCharge { ledger_amount: (-cost) as i64, coins_spent: cost })
    }
}

/// The charge for a hint of price `cost`: nothing after an ad, otherwise the
/// price, refused when the balance does not cover it.
pub fn hint_charge(paid_via_ad: bool, balance: i64, cost: i64) -> (r: Result<HintCharge, GameError>)
    requires
        0 <= cost <= 2,
    ensures
        r == spec_hint_charge(paid_via_ad, balance, cost),
{
    if paid_via_ad {
        Ok(HintCharge { ledger_amount: 0, coins_spent: 0 })
    } else if balance < cost {
        Err(GameError::InsufficientCoinsForHint)
    } else {
        Ok(HintCharge { ledger_amount: -cost, coins_spent: cost })
    }
}

/// A player never gets a third hint in a match, nor one in a ranked or
/// finished match, and the hint granted is the first or the second.
pub proof fn lemma_hint_limits(m: HintMatch, user_id: Seq<char>, used_count: i64)
    requires
        used_count >= 0,
    ensures
        spec_hint_eligibility(m, user_id, used_count) matches Ok(n) ==> {
            &&& 1 <= n <= 2
            &&& n == used_count + 1
            &&& m.match_type@ != "ranked"@
            &&& m.status@ == "in_progress"@
        },
{
}

/// A hint paid in coins costs its price and never leaves the balance below
/// zero; one unlocked by an ad costs nothing.
pub proof fn lemma_hint_charge_covered(paid_via_ad: bool, balance: i64, cost: i64)
    requires
        0 <= cost <= 2,
    ensures
        spec_hint_charge(paid_via_ad, balance, cost) matches Ok(c) ==> {
            &&& c.coins_spent == (if paid_via_ad { 0 } else { cost })
            &&& c.ledger_amount == -c.coins_spent
            &&& !paid_via_ad ==> balance + c.ledger_amount >= 0
        },
{
}


/// The ledger reference of a hint purchase: `hint:{match_id}:{usage_number}`.
pub fn hint_reference(match_id: &str, usage_number: i32) -> (r: String)
    ensures
        r@ == "hint:"@ + match_id@ + seq![':'] + spec_i64_text(usage_number as int),
{
    let mut r = String::from_str("hint:");
    r.append(match_id);
    r.push(':');
    let n = i64_text(usage_number as i64);
    r.append(n.as_str());
    r
}

} // verus!
