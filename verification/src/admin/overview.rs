//! The panel's front page: totals and daily trends.
use vstd::prelude::*;

verus! {

/// Days a trend covers when the request names none.
pub const DEFAULT_TREND_DAYS: i64 = 30;

pub struct OverviewStats {
    pub total_users: i64,
    pub active_today: i64,
    pub active_this_week: i64,
    pub revenue_by_gateway_pkr: Vec<(String, i64)>,
    pub ad_reward_coins_this_week: i64,
    pub active_matches_now: i64,
    pub open_bug_reports: i64,
    pub pending_risk_review_count: i64,
    pub recent_admin_actions: Vec<RecentActionRow>,
}

pub struct RecentActionRow {
    pub admin_id: String,
    pub action: String,
    pub created_at: String,
}

pub struct DailyTrendRow {
    pub day: String,
    pub count: i64,
}

/// The span of a trend chart in days.
pub fn trend_days(requested: Option<i64>) -> (d: i64)
    ensures
        d == match requested {
            Some(x) => x,
            None => DEFAULT_TREND_DAYS,
        },
{
    match requested {
        Some(x) => x,
        None => DEFAULT_TREND_DAYS,
    }
}

} // verus!
