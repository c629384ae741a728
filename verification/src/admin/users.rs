//! User search and the actions on an account: suspend, ban, unban, risk and
//! wallet adjustments, forced logout and role grants.
use vstd::prelude::*;

use super::errors::{is_validation_failure, validation_failed, AdminError};
use crate::anticheat::risk_score::{adjusted_risk_score, clamp_0_100};
use crate::auth::validation::{spec_to_lowercase, to_lowercase};
use crate::text::{is_blank, is_blank_text};

verus! {

pub struct UserSearchRow {
    pub id: String,
    pub username: String,
    pub email: String,
    pub role: String,
    pub status: String,
    pub created_at: String,
}

/// Everything the detail view shows about one account.
pub struct UserDetail {
    pub profile: UserProfileRow,
    pub wallet_balance: i64,
    pub wallet_logs: Vec<WalletLogRow>,
    pub match_history: Vec<MatchSummaryRow>,
    pub sessions: Vec<SessionRow>,
    pub risk_score: i64,
    pub security_events: Vec<SecurityEventRow>,
    pub referrals_made: Vec<ReferralRow>,
    pub referred_by: Option<ReferralRow>,
}

pub struct UserProfileRow {
    pub id: String,
    pub username: String,
    pub email: String,
    pub bio: Option<String>,
    pub country_code: Option<String>,
    pub role: String,
    pub status: String,
    pub created_at: String,
}

pub struct WalletLogRow {
    pub id: String,
    pub log_type: String,
    pub amount: i64,
    pub balance_after: i64,
    pub created_at: String,
}

pub struct MatchSummaryRow {
    pub id: String,
    pub match_type: String,
    pub result: Option<String>,
    pub started_at: String,
}

pub struct SessionRow {
    pub id: String,
    pub device_fingerprint: Option<String>,
    pub ip_address: Option<String>,
    pub browser: Option<String>,
    pub created_at: String,
    pub is_active: i64,
}

pub struct SecurityEventRow {
    pub id: String,
    pub event_type: String,
    pub severity: i64,
    pub metadata: Option<String>,
    pub created_at: String,
}

pub struct ReferralRow {
    pub inviter_id: String,
    pub invited_id: String,
    pub reward_claimed: i64,
    pub created_at: String,
}

pub struct SuspendRequest {
    pub reason: String,
    pub duration_days: Option<i64>,
}

pub struct BanRequest {
    pub reason: String,
}

/// A signed change to the current score, not a new absolute value.
pub struct AdjustRiskScoreRequest {
    pub adjustment: i64,
    pub justification: String,
}

pub struct WalletAdjustmentRequest {
    pub current_password: String,
    pub amount: i64,
    pub justification: String,
}

pub struct GrantRoleRequest {
    pub current_password: String,
    pub role: String,
}

/// The `LIKE` pattern a search uses: the query lower-cased, between `%`s.
pub fn search_pattern(query: &str) -> (p: String)
    ensures
        p@ == seq!['%'] + spec_to_lowercase(query@) + seq!['%'],
{
    let lower = to_lowercase(query);
    let mut p = String::new();
    p.push('%');
    p.append(lower.as_str());
    p.push('%');
    p
}

/// A text the admin must fill in: refused with `message` when it is blank
/// (empty once trimmed).
pub fn require_text(text: &str, message: &str) -> (r: Result<(), AdminError>)
    ensures
        is_blank(text@) ==> is_validation_failure(r, message@),
        !is_blank(text@) ==> r is Ok,
{
    if is_blank_text(text) {
        Err(validation_failed(message))
    } else {
        Ok(())
    }
}

/// Suspensions and bans need a reason.
pub fn validate_reason(reason: &str) -> (r: Result<(), AdminError>)
    ensures
        is_blank(reason@) ==> is_validation_failure(r, "Reason is required."@),
        !is_blank(reason@) ==> r is Ok,
{
    require_text(reason, "Reason is required.")
}

/// The score after an admin adjustment: the old score plus the change,
/// kept within 0 to 100, refused without a justification.
pub fn risk_adjustment(old_score: i64, req: &AdjustRiskScoreRequest) -> (r: Result<i64, AdminError>)
    ensures
        is_blank(req.justification@) ==> is_validation_failure(
            r,
            "Justification is required."@,
        ),
        !is_blank(req.justification@) ==> (r matches Ok(s) && s == clamp_0_100(
            old_score + req.adjustment,
        )),
{
    match require_text(req.justification.as_str(), "Justification is required.") {
        Err(e) => Err(e),
        Ok(()) => Ok(adjusted_risk_score(old_score, req.adjustment)),
    }
}

/// A manual wallet adjustment needs a justification.
pub fn validate_wallet_adjustment(req: &WalletAdjustmentRequest) -> (r: Result<(), AdminError>)
    ensures
        is_blank(req.justification@) ==> is_validation_failure(
            r,
            "Justification is required for a manual wallet adjustment."@,
        ),
        !is_blank(req.justification@) ==> r is Ok,
{
    require_text(req.justification.as_str(), "Justification is required for a manual wallet adjustment.")
}

pub open spec fn is_known_role(role: Seq<char>) -> bool {
    role == "user"@ || role == "super_admin"@ || role == "security_admin"@ || role
        == "finance_admin"@ || role == "support_admin"@ || role == "moderator"@
}

/// Only the roles of the panel can be granted.
pub fn validate_role_name(role: &str) -> (r: Result<(), AdminError>)
    ensures
        is_known_role(role@) ==> r is Ok,
        !is_known_role(role@) ==> is_validation_failure(r, "Unknown role."@),
{
    if role.eq("user") || role.eq("super_admin") || role.eq("security_admin") || role.eq(
        "finance_admin",
    ) || role.eq("support_admin") || role.eq("moderator") {
        Ok(())
    } else {
        Err(validation_failed("Unknown role."))
    }
}

pub open spec fn spec_grant_role_check(role: Seq<char>, target: Option<i64>) -> Option<u8> {
    if !is_known_role(role) {
        Some(0)
    } else if target is None {
        Some(1)
    } else if role != "user"@ && target->0 == 0 {
        Some(2)
    } else {
        None
    }
}

/// The checks of a role grant after re-authentication: the role must
/// exist, the target account must exist (`target_two_fa` is its 2FA flag),
/// and any role but `user` goes only to an account that has turned 2FA on
/// itself.
pub fn grant_role_check(role: &str, target_two_fa: Option<i64>) -> (r: Result<(), AdminError>)
    ensures
        !is_known_role(role@) ==> is_validation_failure(r, "Unknown role."@),
        is_known_role(role@) && target_two_fa is None ==> r matches Err(AdminError::NotFound),
        (is_known_role(role@) && (target_two_fa matches Some(f) && role@ != "user"@ && f == 0))
            ==> is_validation_failure(
            r,
            "This user must enable 2FA on their own account before an admin role can be granted."@,
        ),
        r is Ok <==> (is_known_role(role@) && (target_two_fa matches Some(f) && (role@ == "user"@
            || f != 0))),
{
    validate_role_name(role)?;
    let two_fa = match target_two_fa {
        None => {
            return Err(AdminError::NotFound);
        },
        Some(f) => f,
    };
    if !role.eq("user") && two_fa == 0 {
        return Err(
            validation_failed(
                "This user must enable 2FA on their own account before an admin role can be granted.",
            ),
        );
    }
    Ok(())
}

/// No admin role is ever granted to an account without 2FA.
pub proof fn lemma_admin_roles_need_2fa(role: Seq<char>, f: i64)
    requires
        role != "user"@,
        f == 0,
    ensures
        !(is_known_role(role) && (role == "user"@ || f != 0)),
{
}

} // verus!
