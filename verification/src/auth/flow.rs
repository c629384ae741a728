//! The decisions of the account endpoints between their storage steps: what
//! a login leads to, how a device answers an approval request, when a new
//! device is announced, and the checks of a password reset.
use vstd::prelude::*;

use super::errors::AuthError;
use super::session::DeviceCase;
use super::validation::{spec_validate_password, validate_password};

verus! {

pub struct TokenPair {
    pub access_token: String,
    pub refresh_token: String,
}

/// The `user` object several responses carry beside the tokens.
pub struct PublicUser {
    pub id: String,
    pub username: String,
    pub email: String,
    pub role: String,
    pub coin_balance: i64,
    pub rating: i64,
}

/// Where a login goes once the credentials are good.
#[derive(Debug, Clone, Copy, PartialEq, Eq, Structural)]
pub enum LoginNext {
    /// No 2FA: a session is opened and tokens are issued at once.
    IssueTokens,
    /// 2FA: a pending login is created and the code is asked for; with
    /// `device_approval`, the other, online device must approve first.
    AwaitCode { device_approval: bool },
}

/// The step after good credentials: tokens for an account without 2FA,
/// otherwise a 2FA step that needs the old device's approval exactly when
/// another session is active on a device that is online.
pub fn login_next(two_fa_enabled: i64, case: DeviceCase) -> (n: LoginNext)
    ensures
        two_fa_enabled == 0 ==> n == LoginNext::IssueTokens,
        two_fa_enabled != 0 ==> n == (LoginNext::AwaitCode {
            device_approval: case == DeviceCase::ActiveAndOnline,
        }),
{
    if two_fa_enabled == 0 {
        return LoginNext::IssueTokens;
    }
    match case {
        DeviceCase::ActiveAndOnline => LoginNext::AwaitCode { device_approval: true },
        _ => LoginNext::AwaitCode { device_approval: false },
    }
}

/// The old device's answer: `approve` or `deny`; anything else is refused.
pub fn approval_decision(decision: &str) -> (r: Result<bool, AuthError>)
    ensures
        decision@ == "approve"@ ==> r == Ok::<bool, AuthError>(true),
        decision@ == "deny"@ ==> r == Ok::<bool, AuthError>(false),
        decision@ != "approve"@ && decision@ != "deny"@ ==> r == Err::<bool, AuthError>(
            AuthError::Unauthorized,
        ),
{
    proof {
        reveal_strlit("approve");
        reveal_strlit("deny");
        assert("deny"@.len() == 4);
    }
    if decision.eq("approve") {
        Ok(true)
    } else if decision.eq("deny") {
        Ok(false)
    } else {
        Err(AuthError::Unauthorized)
    }
}

/// The status reported back to the approving device.
pub fn approval_status_label(approved: bool) -> (s: String)
    ensures
        s@ == (if approved {
            "approved"@
        } else {
            "denied"@
        }),
{
    if approved {
        String::from_str("approved")
    } else {
        String::from_str("denied")
    }
}

/// The registration status: the verification mail went out, or is pending.
pub fn register_status(email_sent: bool) -> (s: String)
    ensures
        s@ == (if email_sent {
            "verify_email_sent"@
        } else {
            "verify_email_pending"@
        }),
{
    if email_sent {
        String::from_str("verify_email_sent")
    } else {
        String::from_str("verify_email_pending")
    }
}

/// A sign-in from a device is announced by mail when the account already
/// had sessions and none of them came from this device.
pub fn should_announce_new_device(has_any_session: bool, device_seen_before: bool) -> (r: bool)
    ensures
        r == (has_any_session && !device_seen_before),
{
    has_any_session && !device_seen_before
}

/// How the announcement names the browser and the system when unknown.
pub fn device_labels(browser: Option<&str>, os: Option<&str>) -> (r: (String, String))
    ensures
        r.0@ == match browser {
            Some(b) => b@,
            None => "an unknown browser"@,
        },
        r.1@ == match os {
            Some(o) => o@,
            None => "an unknown device"@,
        },
{
    let b = match browser {
        Some(b) => String::from_str(b),
        None => String::from_str("an unknown browser"),
    };
    let o = match os {
        Some(o) => String::from_str(o),
        None => String::from_str("an unknown device"),
    };
    (b, o)
}

/// The role a refreshed token carries: the stored one, else `user`.
pub fn role_or_user(stored: Option<String>) -> (r: String)
    ensures
        r@ == match stored {
            Some(s) => s@,
            None => "user"@,
        },
{
    match stored {
        Some(s) => s,
        None => String::from_str("user"),
    }
}

/// Seconds until the next verification mail may be asked for (none after
/// the last allowed resend).
pub fn next_resend_wait(backoff: Option<i64>) -> (w: i64)
    ensures
        w == match backoff {
            Some(x) => x,
            None => 0,
        },
{
    match backoff {
        Some(x) => x,
        None => 0,
    }
}

/// Minutes a password-reset link stays valid.
pub const RESET_TOKEN_TTL_MINUTES: i64 = 15;

/// The stored reset token as the reset reads it.
pub struct ResetTokenState {
    pub used: i64,
    /// `None` when its expiry cannot be read.
    pub expired: Option<bool>,
}

pub open spec fn spec_reset_check(
    password: Seq<char>,
    token: Option<ResetTokenState>,
) -> Result<(), AuthError> {
    if spec_validate_password(password) is Err {
        spec_validate_password(password)
    } else {
        match token {
            None => Err(AuthError::ResetTokenInvalidOrExpired),
            Some(t) => if t.used == 1 {
                Err(AuthError::ResetTokenInvalidOrExpired)
            } else {
                match t.expired {
                    None => Err(AuthError::Internal),
                    Some(true) => Err(AuthError::ResetTokenInvalidOrExpired),
                    Some(false) => Ok(()),
                }
            },
        }
    }
}

/// The checks of a password reset, in order: the new password must be
/// strong enough; the token must exist, be unused and unexpired.
pub fn reset_password_check(new_password: &str, token: Option<ResetTokenState>) -> (r: Result<
    (),
    AuthError,
>)
    ensures
        r == spec_reset_check(new_password@, token),
{
    validate_password(new_password)?;
    match token {
        None => Err(AuthError::ResetTokenInvalidOrExpired),
        Some(t) => {
            if t.used == 1 {
                return Err(AuthError::ResetTokenInvalidOrExpired);
            }
            match t.expired {
                None => Err(AuthError::Internal),
                Some(true) => Err(AuthError::ResetTokenInvalidOrExpired),
                Some(false) => Ok(()),
            }
        },
    }
}

/// A reset token works once: after it was used, every further reset with it
/// is refused, whatever the password.
pub proof fn lemma_reset_token_single_use(password: Seq<char>, expired: Option<bool>)
    ensures
        spec_reset_check(password, Some(ResetTokenState { used: 1, expired })) is Err,
{
}

} // verus!
