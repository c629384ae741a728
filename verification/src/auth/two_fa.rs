//! Two-factor authentication: enabling and disabling (both re-authenticated),
//! pending verifications for a new device, old-device approval (which fails
//! closed after two minutes), code submission and retry lockout.
use vstd::prelude::*;

use super::errors::AuthError;
use super::password::{spec_password_matches, verify_password};
use super::tokens::{hash_refresh_token, spec_hash_token};
use crate::text::is_ascii_digit;

verus! {

pub const TWO_FA_PENDING_TTL_MINUTES: i64 = 5;

/// Case C: how long the old device has to answer before it counts as a denial.
pub const OLD_DEVICE_APPROVAL_WINDOW_SECS: i64 = 120;

pub const MAX_2FA_RETRIES: u32 = 5;

pub struct Enable2FaRequest {
    /// Re-authentication.
    pub current_password: String,
    /// User-chosen 6-digit code.
    pub new_code: String,
    pub confirm_code: String,
}

pub struct Disable2FaRequest {
    pub current_password: String,
    pub current_code: String,
}

/// A pending 2FA verification for a new device.
pub struct PendingRow {
    pub id: String,
    pub user_id: String,
    pub device_fingerprint: Option<String>,
    /// "pending" | "approved" | "denied" | "expired" | "completed"
    pub approval_status: String,
    pub requires_old_device_approval: i64,
    pub expires_at: String,
    pub created_at: String,
}

pub open spec fn all_digits(s: Seq<char>) -> bool {
    forall|i: int| 0 <= i < s.len() ==> is_ascii_digit(#[trigger] s[i])
}

/// A new code must be confirmed identically and be exactly 6 ASCII digits.
pub open spec fn spec_code_acceptable(new_code: Seq<char>, confirm: Seq<char>, len: int) -> bool {
    new_code == confirm && len == 6 && all_digits(new_code)
}

fn all_ascii_digits(s: &str) -> (r: bool)
    ensures
        r == all_digits(s@),
{
    for c in it: s.chars()
        invariant
            it.seq() == s@,
            forall|i: int| 0 <= i < it.index() ==> is_ascii_digit(#[trigger] s@[i]),
    {
        proof {
            assert(s@[it.index() as int] == c);
        }
        if !('0' <= c && c <= '9') {
            return false;
        }
    }
    true
}

/// Enabling 2FA: the codes must be acceptable and the current password right
/// (otherwise `ReAuthRequired`); returns the digest to store as the secret.
pub fn enable_2fa_secret(req: &Enable2FaRequest, stored_password_hash: &str) -> (r: Result<
    String,
    AuthError,
>)
    ensures
        !spec_code_acceptable(req.new_code@, req.confirm_code@, req.new_code@.len() as int)
            ==> r == Err::<String, AuthError>(AuthError::ReAuthRequired),
        spec_code_acceptable(req.new_code@, req.confirm_code@, req.new_code@.len() as int)
            && !spec_password_matches(req.current_password@, stored_password_hash@) ==> r == Err::<
            String,
            AuthError,
        >(AuthError::ReAuthRequired),
        spec_code_acceptable(req.new_code@, req.confirm_code@, req.new_code@.len() as int)
            && spec_password_matches(req.current_password@, stored_password_hash@) ==> (r matches Ok(
            h,
        ) && h@ == spec_hash_token(req.new_code@)),
{
    if req.new_code != req.confirm_code {
        return Err(AuthError::ReAuthRequired);
    }
    let code = req.new_code.as_str();
    if code.unicode_len() != 6 || !all_ascii_digits(code) {
        return Err(AuthError::ReAuthRequired);
    }
    if !verify_password(req.current_password.as_str(), stored_password_hash) {
        return Err(AuthError::ReAuthRequired);
    }
    Ok(hash_refresh_token(code))
}

pub open spec fn spec_disable_2fa(
    role: Seq<char>,
    password_ok: bool,
    stored_secret: Option<Seq<char>>,
    code_digest: Seq<char>,
) -> Result<(), AuthError> {
    if role != "user"@ {
        Err(AuthError::TwoFaMandatoryForRole)
    } else if !password_ok {
        Err(AuthError::ReAuthRequired)
    } else {
        match stored_secret {
            None => Err(AuthError::ReAuthRequired),
            Some(s) => if code_digest != s {
                Err(AuthError::ReAuthRequired)
            } else {
                Ok(())
            },
        }
    }
}

/// Disabling 2FA: refused outright for any role but `user` (checked first);
/// then the password and the current code must both be right.
pub fn disable_2fa_check(
    req: &Disable2FaRequest,
    role: &str,
    stored_password_hash: &str,
    stored_secret: &Option<String>,
) -> (r: Result<(), AuthError>)
    ensures
        r == spec_disable_2fa(
            role@,
            spec_password_matches(req.current_password@, stored_password_hash@),
            match stored_secret {
                Some(s) => Some(s@),
                None => None,
            },
            spec_hash_token(req.current_code@),
        ),
{
    if !role.eq("user") {
        return Err(AuthError::TwoFaMandatoryForRole);
    }
    if !verify_password(req.current_password.as_str(), stored_password_hash) {
        return Err(AuthError::ReAuthRequired);
    }
    match stored_secret {
        None => Err(AuthError::ReAuthRequired),
        Some(secret) => {
            let digest = hash_refresh_token(req.current_code.as_str());
            if digest != *secret {
                return Err(AuthError::ReAuthRequired);
            }
            Ok(())
        },
    }
}

#[derive(Debug, Clone, Copy, PartialEq, Eq, Structural)]
pub enum PendingCheck {
    Usable,
    /// Past its expiry while still pending: mark it expired and refuse.
    ExpireNow,
    /// The stored expiry cannot be read.
    Unreadable,
}

/// Looking up a pending verification: `past_expiry` is `None` when the expiry is unreadable.
pub fn pending_check(approval_status: &str, past_expiry: Option<bool>) -> (c: PendingCheck)
    ensures
        c == match past_expiry {
            None => PendingCheck::Unreadable,
            Some(past) => if past && approval_status@ == "pending"@ {
                PendingCheck::ExpireNow
            } else {
                PendingCheck::Usable
            },
        },
{
    match past_expiry {
        None => PendingCheck::Unreadable,
        Some(past) => {
            if past && approval_status.eq("pending") {
                PendingCheck::ExpireNow
            } else {
                PendingCheck::Usable
            }
        },
    }
}

/// The old device answers: only a still-pending request can be approved or
/// denied; returns the new status.
pub fn approval_response(approval_status: &str, approved: bool) -> (r: Result<String, AuthError>)
    ensures
        approval_status@ != "pending"@ ==> r == Err::<String, AuthError>(
            AuthError::ResetTokenInvalidOrExpired,
        ),
        approval_status@ == "pending"@ ==> (r matches Ok(s) && s@ == if approved {
            "approved"@
        } else {
            "denied"@
        }),
{
    if !approval_status.eq("pending") {
        return Err(AuthError::ResetTokenInvalidOrExpired);
    }
    if approved {
        Ok(String::from_str("approved"))
    } else {
        Ok(String::from_str("denied"))
    }
}

/// Case C fails closed: a request still pending old-device approval after
/// more than two minutes is denied.
pub fn stale_approval_should_deny(
    approval_status: &str,
    requires_old_device_approval: i64,
    age_secs: i64,
) -> (deny: bool)
    ensures
        deny == (approval_status@ == "pending"@ && requires_old_device_approval == 1 && age_secs
            > 120),
{
    if !approval_status.eq("pending") {
        return false;
    }
    requires_old_device_approval == 1 && age_secs > OLD_DEVICE_APPROVAL_WINDOW_SECS
}

pub open spec fn spec_submit_gate(status: Seq<char>, requires_approval: i64) -> Result<(), AuthError> {
    if status == "completed"@ || status == "denied"@ || status == "expired"@ {
        Err(AuthError::LoginRequestDenied)
    } else if status == "pending"@ && requires_approval == 1 {
        Err(AuthError::LoginRequestDenied)
    } else {
        Ok(())
    }
}

/// Whether a code may be submitted against a pending record: never twice (a
/// completed, denied or expired record is refused), and in case C only after
/// the old device approved.
pub fn submit_gate(approval_status: &str, requires_old_device_approval: i64) -> (r: Result<
    (),
    AuthError,
>)
    ensures
        r == spec_submit_gate(approval_status@, requires_old_device_approval),
{
    if approval_status.eq("completed") || approval_status.eq("denied") || approval_status.eq(
        "expired",
    ) {
        return Err(AuthError::LoginRequestDenied);
    }
    if approval_status.eq("pending") && requires_old_device_approval == 1 {
        return Err(AuthError::LoginRequestDenied);
    }
    Ok(())
}

/// The submitted code's digest against the stored secret (a missing secret
/// compares as the empty string).
pub fn two_fa_code_matches(submitted: &str, stored_secret: &Option<String>) -> (r: bool)
    ensures
        r == (spec_hash_token(submitted@) == match stored_secret {
            Some(s) => s@,
            None => Seq::<char>::empty(),
        }),
{
    let digest = hash_refresh_token(submitted);
    match stored_secret {
        Some(s) => digest == *s,
        None => {
            let empty = String::new();
            digest == empty
        },
    }
}

/// After a wrong code: with `prior_retries` earlier wrong codes on record for
/// this pending id, the fifth wrong code locks 2FA for 15 minutes.
pub fn wrong_code_error(prior_retries: i64) -> (e: AuthError)
    requires
        (prior_retries as u32) < u32::MAX,
    ensures
        e == if (prior_retries as u32) + 1 >= 5 {
            AuthError::TwoFaLockout { retry_after_secs: 900 }
        } else {
            AuthError::TwoFaCodeIncorrect
        },
{
    let count = prior_retries as u32;
    if count + 1 >= MAX_2FA_RETRIES {
        AuthError::TwoFaLockout { retry_after_secs: 15 * 60 }
    } else {
        AuthError::TwoFaCodeIncorrect
    }
}

/// A pending verification as code submission reads and changes it: its
/// status, whether the old device must approve first, and the wrong codes
/// already recorded against it.
pub struct PendingAttempt {
    pub approval_status: String,
    pub requires_old_device_approval: i64,
    pub wrong_codes: i64,
}

pub open spec fn secret_view(stored_secret: Option<String>) -> Seq<char> {
    match stored_secret {
        Some(s) => s@,
        None => Seq::<char>::empty(),
    }
}

pub open spec fn spec_wrong_code_error(prior: int) -> AuthError {
    if prior + 1 >= 5 {
        AuthError::TwoFaLockout { retry_after_secs: 900 }
    } else {
        AuthError::TwoFaCodeIncorrect
    }
}

/// One code submission, as (status, wrong codes, answer) afterwards: a record
/// that may not take a code is left alone and refused; a wrong code is counted
/// and refused (from the fifth one on with the 15-minute lockout); the right
/// code completes the record.
pub open spec fn spec_submit_step(
    status: Seq<char>,
    requires_approval: i64,
    wrong_codes: int,
    code_matches: bool,
) -> (Seq<char>, int, Result<(), AuthError>) {
    if spec_submit_gate(status, requires_approval) is Err {
        (status, wrong_codes, spec_submit_gate(status, requires_approval))
    } else if !code_matches {
        (status, wrong_codes + 1, Err(spec_wrong_code_error(wrong_codes)))
    } else {
        ("completed"@, wrong_codes, Ok(()))
    }
}

/// Submits `code` against the pending record `p` for an account whose stored
/// 2FA secret is `stored_secret`, updating the record as it must be stored.
pub fn submit_code(p: &mut PendingAttempt, code: &str, stored_secret: &Option<String>) -> (r: Result<
    (),
    AuthError,
>)
    requires
        0 <= old(p).wrong_codes < u32::MAX,
    ensures
        (final(p).approval_status@, final(p).wrong_codes as int, r) == spec_submit_step(
            old(p).approval_status@,
            old(p).requires_old_device_approval,
            old(p).wrong_codes as int,
            spec_hash_token(code@) == secret_view(*stored_secret),
        ),
        final(p).requires_old_device_approval == old(p).requires_old_device_approval,
{
    submit_gate(p.approval_status.as_str(), p.requires_old_device_approval)?;
    if !two_fa_code_matches(code, stored_secret) {
        let e = wrong_code_error(p.wrong_codes);
        p.wrong_codes = p.wrong_codes + 1;
        return Err(e);
    }
    p.approval_status = String::from_str("completed");
    Ok(())
}

/// A completed verification cannot be used again, and wrong codes lock out:
/// after the right code, any further submission is refused; once four wrong
/// codes are on record, every further wrong code answers with the lockout.
pub proof fn lemma_code_attempts(
    status: Seq<char>,
    requires_approval: i64,
    wrong_codes: int,
    code_matches: bool,
    again_matches: bool,
)
    ensures
        ({
            let s1 = spec_submit_step(status, requires_approval, wrong_codes, code_matches);
            s1.2 is Ok ==> spec_submit_step(s1.0, requires_approval, s1.1, again_matches).2
                == Err::<(), AuthError>(AuthError::LoginRequestDenied)
        }),
        wrong_codes >= 4 && spec_submit_gate(status, requires_approval) is Ok ==> spec_submit_step(
            status,
            requires_approval,
            wrong_codes,
            false,
        ) == (status, wrong_codes + 1, Err::<(), AuthError>(
            AuthError::TwoFaLockout { retry_after_secs: 900 },
        )),
{
}

/// A pending record is single-use, and case C needs approval first.
pub proof fn lemma_pending_single_use(requires_approval: i64)
    ensures
        spec_submit_gate("completed"@, requires_approval) is Err,
        spec_submit_gate("pending"@, 1) is Err,
{
}

} // verus!
