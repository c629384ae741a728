//! Errors of the account flows (registration, login, 2FA, sessions, resets).
use vstd::prelude::*;

use crate::reply::{error_reply, reply_view, ErrorReply};
use crate::text::{i64_text, spec_i64_text};

verus! {

#[derive(Debug, Clone, Copy, PartialEq, Eq, Structural)]
pub enum AuthError {
    UsernameTaken,
    EmailTaken,
    UsernameFormatInvalid,
    EmailFormatInvalid,
    PasswordTooWeak,
    ReservedUsername,
    /// Generic: never says which of identifier or password was wrong.
    InvalidCredentials,
    EmailNotVerified,
    AccountLocked { retry_after_secs: i64 },
    TwoFaCodeIncorrect,
    TwoFaLockout { retry_after_secs: i64 },
    /// Wrong password or 2FA code while enabling or disabling 2FA.
    ReAuthRequired,
    /// 2FA cannot be disabled on accounts with a role other than `user`.
    TwoFaMandatoryForRole,
    LoginRequestDenied,
    ResetTokenInvalidOrExpired,
    Unauthorized,
    /// A rotated-out refresh token was presented again.
    RefreshTokenReuseDetected,
    ResendTooSoon { retry_after_secs: i64 },
    AlreadyVerified,
    /// Beyond the fourth resend: contact support.
    ResendLimitExceeded,
    CaptchaRequired,
    Internal,
}

pub open spec fn spec_auth_reply(e: AuthError) -> (u16, Seq<char>, Seq<char>) {
    match e {
        AuthError::UsernameTaken => (409, "username_taken"@, "This username already exists."@),
        AuthError::EmailTaken => (409, "email_taken"@, "This email is already registered."@),
        AuthError::UsernameFormatInvalid => (400, "username_invalid"@, "Invalid username format."@),
        AuthError::EmailFormatInvalid => (400, "email_invalid"@, "Invalid email format."@),
        AuthError::PasswordTooWeak => (400, "password_weak"@, "Password is too weak."@),
        AuthError::ReservedUsername => (400, "username_reserved"@, "This username is not available."@),
        AuthError::InvalidCredentials => (401, "invalid_credentials"@, "Invalid username/email or password."@),
        AuthError::EmailNotVerified => (403, "email_not_verified"@, "Please verify your email before logging in."@),
        AuthError::AccountLocked { retry_after_secs } => (429, "account_locked"@, "Too many failed attempts. Try again in "@ + spec_i64_text(retry_after_secs as int) + " seconds."@),
        AuthError::TwoFaCodeIncorrect => (401, "2fa_incorrect"@, "Incorrect 2FA code."@),
        AuthError::TwoFaLockout { retry_after_secs } => (429, "2fa_locked"@, "Too many incorrect codes. Try again in "@ + spec_i64_text(retry_after_secs as int) + " seconds."@),
        AuthError::ReAuthRequired => (401, "reauth_required"@, "Password or 2FA code incorrect."@),
        AuthError::TwoFaMandatoryForRole => (403, "2fa_mandatory"@, "2FA cannot be disabled for admin accounts."@),
        AuthError::LoginRequestDenied => (403, "login_denied"@, "Login request denied from your other device."@),
        AuthError::ResetTokenInvalidOrExpired => (400, "reset_token_invalid"@, "This reset link is invalid or has expired."@),
        AuthError::Unauthorized => (401, "unauthorized"@, "Session expired. Please log in again."@),
        AuthError::RefreshTokenReuseDetected => (401, "session_revoked"@, "Suspicious activity detected. Please log in again."@),
        AuthError::ResendTooSoon { retry_after_secs } => (429, "resend_too_soon"@, "Please wait "@ + spec_i64_text(retry_after_secs as int) + " seconds before requesting another email."@),
        AuthError::AlreadyVerified => (400, "already_verified"@, "This email is already verified."@),
        AuthError::ResendLimitExceeded => (429, "resend_limit"@, "Please contact support to verify your email."@),
        AuthError::CaptchaRequired => (403, "captcha_required"@, "Please complete the verification challenge."@),
        AuthError::Internal => (500, "internal_error"@, "Something went wrong. Please try again."@),
    }
}

impl AuthError {
    /// The HTTP status, code and message this error answers with.
    pub fn reply(&self) -> (r: ErrorReply)
        ensures
            reply_view(r) == spec_auth_reply(*self),
    {
        match self {
            AuthError::UsernameTaken => error_reply(409, "username_taken", String::from_str("This username already exists.")),
            AuthError::EmailTaken => error_reply(409, "email_taken", String::from_str("This email is already registered.")),
            AuthError::UsernameFormatInvalid => error_reply(400, "username_invalid", String::from_str("Invalid username format.")),
            AuthError::EmailFormatInvalid => error_reply(400, "email_invalid", String::from_str("Invalid email format.")),
            AuthError::PasswordTooWeak => error_reply(400, "password_weak", String::from_str("Password is too weak.")),
            AuthError::ReservedUsername => error_reply(400, "username_reserved", String::from_str("This username is not available.")),
            AuthError::InvalidCredentials => error_reply(401, "invalid_credentials", String::from_str("Invalid username/email or password.")),
            AuthError::EmailNotVerified => error_reply(403, "email_not_verified", String::from_str("Please verify your email before logging in.")),
            AuthError::AccountLocked { retry_after_secs } => {
                let mut m = String::from_str("Too many failed attempts. Try again in ");
                let n = i64_text(*retry_after_secs);
                m.append(n.as_str());
                m.append(" seconds.");
                error_reply(429, "account_locked", m)
            },
            AuthError::TwoFaCodeIncorrect => error_reply(401, "2fa_incorrect", String::from_str("Incorrect 2FA code.")),
            AuthError::TwoFaLockout { retry_after_secs } => {
                let mut m = String::from_str("Too many incorrect codes. Try again in ");
                let n = i64_text(*retry_after_secs);
                m.append(n.as_str());
                m.append(" seconds.");
                error_reply(429, "2fa_locked", m)
            },
            AuthError::ReAuthRequired => error_reply(401, "reauth_required", String::from_str("Password or 2FA code incorrect.")),
            AuthError::TwoFaMandatoryForRole => error_reply(403, "2fa_mandatory", String::from_str("2FA cannot be disabled for admin accounts.")),
            AuthError::LoginRequestDenied => error_reply(403, "login_denied", String::from_str("Login request denied from your other device.")),
            AuthError::ResetTokenInvalidOrExpired => error_reply(400, "reset_token_invalid", String::from_str("This reset link is invalid or has expired.")),
            AuthError::Unauthorized => error_reply(401, "unauthorized", String::from_str("Session expired. Please log in again.")),
            AuthError::RefreshTokenReuseDetected => error_reply(401, "session_revoked", String::from_str("Suspicious activity detected. Please log in again.")),
            AuthError::ResendTooSoon { retry_after_secs } => {
                let mut m = String::from_str("Please wait ");
                let n = i64_text(*retry_after_secs);
                m.append(n.as_str());
                m.append(" seconds before requesting another email.");
                error_reply(429, "resend_too_soon", m)
            },
            AuthError::AlreadyVerified => error_reply(400, "already_verified", String::from_str("This email is already verified.")),
            AuthError::ResendLimitExceeded => error_reply(429, "resend_limit", String::from_str("Please contact support to verify your email.")),
            AuthError::CaptchaRequired => error_reply(403, "captcha_required", String::from_str("Please complete the verification challenge.")),
            AuthError::Internal => error_reply(500, "internal_error", String::from_str("Something went wrong. Please try again.")),
        }
    }
}

} // verus!
