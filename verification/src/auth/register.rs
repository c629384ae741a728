//! Registration and email verification: the escalating resend backoff, the
//! single-use token checks, and the replies.
use vstd::prelude::*;

use super::errors::AuthError;

verus! {

pub const VERIFICATION_TOKEN_TTL_MINUTES: i64 = 15;

pub struct RegisterRequest {
    pub username: String,
    pub email: String,
    pub password: String,
    pub device_fingerprint: Option<String>,
    pub browser: Option<String>,
    pub os: Option<String>,
}

/// Registration does not log in: the client is told to verify the email.
pub struct RegisterResponse {
    pub state: String,
    pub message: String,
}

pub struct ResetPasswordRequest {
    pub token: String,
    pub new_password: String,
}

pub fn register_response() -> (r: RegisterResponse)
    ensures
        r.state@ == "verify_email"@,
        r.message@ == "Check your email to verify your account."@,
{
    RegisterResponse {
        state: String::from_str("verify_email"),
        message: String::from_str("Check your email to verify your account."),
    }
}

pub open spec fn spec_resend_backoff(resend_count: u32) -> Option<i64> {
    if resend_count == 0 {
        Some(30)
    } else if resend_count == 1 {
        Some(300)
    } else if resend_count == 2 {
        Some(18000)
    } else if resend_count == 3 {
        Some(86400)
    } else {
        None
    }
}

/// Wait before the next resend, by resends already sent: 30 s, 5 min, 5 h,
/// 24 h; after the fourth, none (contact support instead).
pub fn resend_backoff_seconds(resend_count: u32) -> (r: Option<i64>)
    ensures
        r == spec_resend_backoff(resend_count),
{
    match resend_count {
        0 => Some(30),
        1 => Some(5 * 60),
        2 => Some(5 * 60 * 60),
        3 => Some(24 * 60 * 60),
        _ => None,
    }
}

/// Resends already sent: verification tokens on record minus the one issued
/// at registration (never below zero), as a `u32`.
pub fn resend_count_from_tokens(tokens_on_record: i64) -> (n: u32)
    ensures
        n == (if tokens_on_record == i64::MIN {
            i64::MIN
        } else {
            (tokens_on_record - 1) as i64
        }) as u32,
{
    let less_one: i64 = if tokens_on_record == i64::MIN {
        tokens_on_record
    } else {
        tokens_on_record - 1
    };
    less_one as u32
}

pub open spec fn spec_resend_decision(
    email_verified: i64,
    resend_count: u32,
    elapsed_secs: Option<int>,
) -> Result<(), AuthError> {
    if email_verified == 1 {
        Err(AuthError::AlreadyVerified)
    } else {
        match spec_resend_backoff(resend_count) {
            None => Err(AuthError::ResendLimitExceeded),
            Some(wait) => match elapsed_secs {
                Some(e) => if e < wait {
                    Err(AuthError::ResendTooSoon { retry_after_secs: (wait - e) as i64 })
                } else {
                    Ok(())
                },
                None => Ok(()),
            },
        }
    }
}

/// Whether a verification email may be resent now: not for a verified
/// account, not beyond the fourth resend, and not before the backoff since
/// the last one has passed (then the remaining wait is reported).
pub fn resend_decision(email_verified: i64, resend_count: u32, elapsed_secs: Option<i64>) -> (r:
    Result<(), AuthError>)
    requires
        elapsed_secs matches Some(e) ==> e > i64::MIN + 86400,
    ensures
        r == spec_resend_decision(
            email_verified,
            resend_count,
            match elapsed_secs {
                Some(e) => Some(e as int),
                None => None,
            },
        ),
{
    if email_verified == 1 {
        return Err(AuthError::AlreadyVerified);
    }
    let wait = match resend_backoff_seconds(resend_count) {
        Some(w) => w,
        None => {
            return Err(AuthError::ResendLimitExceeded);
        },
    };
    match elapsed_secs {
        Some(elapsed) => {
            if elapsed < wait {
                return Err(AuthError::ResendTooSoon { retry_after_secs: wait - elapsed });
            }
        },
        None => {},
    }
    Ok(())
}

pub open spec fn spec_single_use(used: bool, expired: Option<bool>, invalid: AuthError) -> Result<
    (),
    AuthError,
> {
    if used {
        Err(invalid)
    } else {
        match expired {
            None => Err(AuthError::Internal),
            Some(true) => Err(invalid),
            Some(false) => Ok(()),
        }
    }
}

/// A single-use emailed token (verification, reset, signup link): refused
/// with `invalid` when already used or past expiry; an unreadable expiry is
/// `Internal`. `expired` is `None` when the expiry cannot be read.
pub fn single_use_token_check(used: bool, expired: Option<bool>, invalid: AuthError) -> (r: Result<
    (),
    AuthError,
>)
    ensures
        r == spec_single_use(used, expired, invalid),
{
    if used {
        return Err(invalid);
    }
    match expired {
        None => Err(AuthError::Internal),
        Some(true) => Err(invalid),
        Some(false) => Ok(()),
    }
}

/// Redeems a single-use emailed token whose record says `used` and whose
/// expiry has (`Some(true)`) or has not passed (`None`: unreadable): the answer
/// is that of `single_use_token_check`, and a redeemed token is marked used.
pub fn redeem_token(used: &mut bool, expired: Option<bool>, invalid: AuthError) -> (r: Result<
    (),
    AuthError,
>)
    ensures
        r == spec_single_use(*old(used), expired, invalid),
        *final(used) == (*old(used) || r is Ok),
{
    let r = single_use_token_check(*used, expired, invalid);
    if r.is_ok() {
        *used = true;
    }
    r
}

/// A single-use token works once: after one successful redemption, every
/// later one is refused with `invalid`, whatever its expiry then reads.
pub proof fn lemma_token_redeems_once(
    used: bool,
    expired1: Option<bool>,
    expired2: Option<bool>,
    invalid: AuthError,
)
    requires
        spec_single_use(used, expired1, invalid) is Ok,
    ensures
        spec_single_use(used || spec_single_use(used, expired1, invalid) is Ok, expired2, invalid)
            == Err::<(), AuthError>(invalid),
{
}

/// The resend schedule only grows, then stops.
pub proof fn lemma_backoff_escalates(a: u32, b: u32)
    requires
        a < b,
        spec_resend_backoff(b) is Some,
    ensures
        spec_resend_backoff(a) is Some,
        spec_resend_backoff(a)->0 < spec_resend_backoff(b)->0,
{
}


/// Availability is checked before any account is created: a taken username
/// is reported before a taken e-mail.
pub fn availability_check(username_taken: bool, email_taken: bool) -> (r: Result<(), AuthError>)
    ensures
        username_taken ==> r == Err::<(), AuthError>(AuthError::UsernameTaken),
        !username_taken && email_taken ==> r == Err::<(), AuthError>(AuthError::EmailTaken),
        !username_taken && !email_taken ==> r is Ok,
{
    if username_taken {
        Err(AuthError::UsernameTaken)
    } else if email_taken {
        Err(AuthError::EmailTaken)
    } else {
        Ok(())
    }
}

} // verus!
