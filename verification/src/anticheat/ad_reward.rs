//! Server-to-server ad-reward callbacks: only this path credits a coin, with
//! duplicate protection, a daily cap of 10 and a 2-minute cooldown.
use vstd::prelude::*;

verus! {

pub const DAILY_CAP: i64 = 10;

/// Cooldown between rewarded views, in milliseconds (2 minutes).
pub const COOLDOWN_MS: i64 = 120000;

/// The callback as the ad network sends it.
pub struct AdRewardCallback {
    pub user_id: String,
    pub ad_network_transaction_id: String,
}

#[derive(Debug, Clone, Copy, PartialEq, Eq, Structural)]
pub enum AdRewardDecision {
    /// Same network transaction id seen before: ignored.
    Duplicate,
    /// 10 verified rewards already today: rejected and logged.
    DailyCapExceeded,
    /// Less than 2 minutes since the last verified reward: rejected and logged.
    CooldownViolation,
    /// All checks passed: credit 1 coin.
    Credit,
}

pub open spec fn spec_ad_reward_decision(
    duplicate: bool,
    verified_today: int,
    since_last_ms: Option<int>,
) -> AdRewardDecision {
    if duplicate {
        AdRewardDecision::Duplicate
    } else if verified_today >= 10 {
        AdRewardDecision::DailyCapExceeded
    } else if (match since_last_ms {
        Some(ms) => ms < 120000,
        None => false,
    }) {
        AdRewardDecision::CooldownViolation
    } else {
        AdRewardDecision::Credit
    }
}

/// Checks in order: duplicate, daily cap, cooldown (only when the last
/// verified reward's time is known).
pub fn ad_reward_decision(duplicate: bool, verified_today: i64, since_last_ms: Option<i64>) -> (d:
    AdRewardDecision)
    ensures
        d == spec_ad_reward_decision(
            duplicate,
            verified_today as int,
            match since_last_ms {
                Some(ms) => Some(ms as int),
                None => None,
            },
        ),
{
    if duplicate {
        return AdRewardDecision::Duplicate;
    }
    if verified_today >= DAILY_CAP {
        return AdRewardDecision::DailyCapExceeded;
    }
    match since_last_ms {
        Some(ms) => {
            if ms < COOLDOWN_MS {
                return AdRewardDecision::CooldownViolation;
            }
        },
        None => {},
    }
    AdRewardDecision::Credit
}

/// A coin is only ever credited under the cap and outside the cooldown.
pub proof fn lemma_credit_respects_limits(duplicate: bool, verified_today: int, since_last_ms: Option<int>)
    requires
        spec_ad_reward_decision(duplicate, verified_today, since_last_ms) == AdRewardDecision::Credit,
    ensures
        !duplicate,
        verified_today < 10,
        since_last_ms matches Some(ms) ==> ms >= 120000,
{
}

} // verus!
