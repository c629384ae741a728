//! The anti-cheat review queue: risk tiers, pending reviews, manual
//! overrides and the blacklist.
use vstd::prelude::*;

use super::errors::{is_validation_failure, validation_failed, AdminError};
use super::users::require_text;
use crate::text::is_blank;

verus! {

pub struct RiskTierRow {
    pub user_id: String,
    pub username: String,
    pub score: i64,
    pub last_evaluated_at: String,
}

pub struct PendingReviewRow {
    pub user_id: String,
    pub username: String,
    pub score: i64,
    pub consecutive_high_cycles: i64,
}

pub struct ManualOverrideRequest {
    /// `confirm_ban` or `dismiss`.
    pub action: String,
    pub justification: String,
}

pub struct CheatDetectionLogRow {
    pub match_id: String,
    pub player_white_id: String,
    pub player_black_id: String,
    pub result_reason: Option<String>,
    pub ended_at: Option<String>,
}

pub struct BlacklistRow {
    pub id: String,
    pub user_id: String,
    pub reason: String,
    pub created_at: String,
}

pub struct SecurityEventRow {
    pub id: String,
    pub event_type: String,
    pub severity: i64,
    pub metadata: Option<String>,
    pub created_at: String,
}

/// The score range a risk-queue view lists: `elevated` is 61 to 80, `high`
/// is 81 to 100, and anything else (or nothing) both.
pub fn risk_queue_bounds(tier: Option<&str>) -> (r: (i64, i64))
    ensures
        tier matches Some(t) && t@ == "elevated"@ ==> r == (61i64, 80i64),
        tier matches Some(t) && t@ == "high"@ ==> r == (81i64, 100i64),
        !(tier matches Some(t) && (t@ == "elevated"@ || t@ == "high"@)) ==> r == (61i64, 100i64),
{
    proof {
        reveal_strlit("elevated");
        reveal_strlit("high");
        assert("high"@.len() == 4);
    }
    match tier {
        Some(t) => {
            if t.eq("elevated") {
                (61, 80)
            } else if t.eq("high") {
                (81, 100)
            } else {
                (61, 100)
            }
        },
        None => (61, 100),
    }
}

/// Whether a high-risk account still waits for review: not when it is
/// already permanently banned.
pub fn awaits_review(permanent_bans: i64) -> (r: bool)
    ensures
        r == (permanent_bans <= 0),
{
    permanent_bans <= 0
}

#[derive(Debug, Clone, Copy, PartialEq, Eq, Structural)]
pub enum OverrideAction {
    /// Ban now, without waiting for the confirmation cycles.
    ConfirmBan,
    /// Clear the flag: the score goes back to zero.
    Dismiss,
}

/// A manual override needs a justification and one of the two actions.
pub fn override_action(req: &ManualOverrideRequest) -> (r: Result<OverrideAction, AdminError>)
    ensures
        is_blank(req.justification@) ==> is_validation_failure(
            r,
            "Justification is required."@,
        ),
        !is_blank(req.justification@) && req.action@ == "confirm_ban"@ ==> r == Ok::<
            OverrideAction,
            AdminError,
        >(OverrideAction::ConfirmBan),
        !is_blank(req.justification@) && req.action@ == "dismiss"@ ==> r == Ok::<
            OverrideAction,
            AdminError,
        >(OverrideAction::Dismiss),
        !is_blank(req.justification@) && req.action@ != "confirm_ban"@ && req.action@
            != "dismiss"@ ==> is_validation_failure(r, "action must be confirm_ban or dismiss"@),
{
    match require_text(req.justification.as_str(), "Justification is required.") {
        Err(e) => {
            return Err(e);
        },
        Ok(()) => {},
    }
    let action = req.action.as_str();
    proof {
        reveal_strlit("confirm_ban");
        reveal_strlit("dismiss");
        assert("dismiss"@.len() == 7);
    }
    if action.eq("confirm_ban") {
        Ok(OverrideAction::ConfirmBan)
    } else if action.eq("dismiss") {
        Ok(OverrideAction::Dismiss)
    } else {
        Err(validation_failed("action must be confirm_ban or dismiss"))
    }
}

/// The reason recorded on a ban an admin confirmed by hand.
pub fn confirm_ban_reason(justification: &str) -> (r: String)
    ensures
        r@ == "Manual admin confirm-and-ban: "@ + justification@,
{
    let mut r = String::from_str("Manual admin confirm-and-ban: ");
    r.append(justification);
    r
}

} // verus!
