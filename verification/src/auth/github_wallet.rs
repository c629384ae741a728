//! The durable copy of a user's coin balance and daily-reward claims.
use vstd::prelude::*;

use super::github_users::GhUser;
use crate::db::keyed::KeyedList;

verus! {

pub struct GhDailyClaim {
    pub streak_day: i64,
    pub coins_awarded: i64,
    pub claimed_at: String,
}

/// Claims by date (`YYYY-MM-DD`), the current streak and the last claim date.
pub struct GhDailyFile {
    pub claims: KeyedList<GhDailyClaim>,
    pub current_streak_day: i64,
    pub last_claim_date: Option<String>,
}

/// The file of a user who never claimed.
pub fn empty_daily_file() -> (f: GhDailyFile)
    ensures
        f.claims.wf(),
        f.claims@ == Map::<Seq<char>, GhDailyClaim>::empty(),
        f.current_streak_day == 0,
        f.last_claim_date is None,
{
    GhDailyFile { claims: KeyedList::new(), current_streak_day: 0, last_claim_date: None }
}

/// Whether a reward was claimed on `today`.
pub fn claimed_today(f: &GhDailyFile, today: &str) -> (r: bool)
    ensures
        r == f.claims@.dom().contains(today@),
{
    f.claims.contains_key(today)
}

/// Records today's claim: the claim is stored under the date, and the
/// streak and last claim date move to it.
pub fn record_claim(f: &mut GhDailyFile, today: &str, streak_day: i64, coins: i64, claimed_at: String)
    requires
        old(f).claims.wf(),
    ensures
        final(f).claims.wf(),
        final(f).claims@ == old(f).claims@.insert(
            today@,
            GhDailyClaim { streak_day, coins_awarded: coins, claimed_at },
        ),
        final(f).current_streak_day == streak_day,
        (final(f).last_claim_date matches Some(d) && d@ == today@),
{
    f.claims.insert(String::from_str(today), GhDailyClaim { streak_day, coins_awarded: coins, claimed_at });
    f.current_streak_day = streak_day;
    f.last_claim_date = Some(String::from_str(today));
}

/// The durable user record carries the authoritative balance from now on.
pub fn sync_balance(user: &mut GhUser, coin_balance: i64, now: String)
    ensures
        final(user).coin_balance == coin_balance,
        final(user).updated_at@ == now@,
        final(user).id == old(user).id,
        final(user).email == old(user).email,
        final(user).role == old(user).role,
{
    user.coin_balance = coin_balance;
    user.updated_at = now;
}

} // verus!
