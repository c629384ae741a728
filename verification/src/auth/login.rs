//! Login: lockout, CAPTCHA step-up, and the credential check, which answers
//! with one generic error whether the identifier is unknown, the account is
//! blocked, or the password is wrong.
use vstd::prelude::*;

use super::errors::AuthError;
use super::password::{spec_password_matches, verify_password};

verus! {

/// Failed attempts within the window that lock the account.
pub const MAX_FAILED_ATTEMPTS: i64 = 5;

pub const LOCKOUT_WINDOW_MINUTES: i64 = 15;

/// Failed attempts after which a CAPTCHA is required before credentials are checked.
pub const CAPTCHA_AFTER_FAILURES: i64 = 3;

/// A login attempt: one identifier field (username or email) and a password.
pub struct LoginRequest {
    pub identifier: String,
    pub password: String,
    pub device_fingerprint: Option<String>,
    pub ip_address: Option<String>,
    pub browser: Option<String>,
    pub os: Option<String>,
    /// Required after 3 failed attempts in the lockout window.
    pub captcha_challenge_id: Option<String>,
    pub captcha_answer: Option<String>,
}

/// What login reads of an account.
pub struct UserAuthRow {
    pub id: String,
    pub password_hash: String,
    pub email_verified: i64,
    pub two_fa_enabled: i64,
    pub role: String,
    pub status: String,
}

/// Five failures in the window lock the identifier for the full window.
pub fn check_lockout(recent_failures: i64) -> (r: Result<(), AuthError>)
    ensures
        recent_failures >= 5 ==> r == Err::<(), AuthError>(
            AuthError::AccountLocked { retry_after_secs: 900 },
        ),
        recent_failures < 5 ==> r is Ok,
{
    if recent_failures >= MAX_FAILED_ATTEMPTS {
        return Err(AuthError::AccountLocked { retry_after_secs: LOCKOUT_WINDOW_MINUTES * 60 });
    }
    Ok(())
}

#[derive(Debug, Clone, Copy, PartialEq, Eq, Structural)]
pub enum LoginCaptchaStep {
    /// Fewer than 3 recent failures: go straight to the credential check.
    NotRequired,
    /// A challenge must be solved first: issue one and stop.
    IssueChallenge,
    /// A challenge id and answer came with the request: check them first.
    CheckAnswer,
}

pub open spec fn non_empty(o: Option<String>) -> bool {
    match o {
        Some(s) => s@.len() > 0,
        None => false,
    }
}

fn is_non_empty(o: &Option<String>) -> (r: bool)
    ensures
        r == non_empty(*o),
{
    match o {
        Some(s) => !s.as_str().is_empty(),
        None => false,
    }
}

pub fn login_captcha_step(recent_failures: i64, req: &LoginRequest) -> (step: LoginCaptchaStep)
    ensures
        recent_failures < 3 ==> step == LoginCaptchaStep::NotRequired,
        recent_failures >= 3 && non_empty(req.captcha_challenge_id) && non_empty(req.captcha_answer)
            ==> step == LoginCaptchaStep::CheckAnswer,
        recent_failures >= 3 && !(non_empty(req.captcha_challenge_id) && non_empty(
            req.captcha_answer,
        )) ==> step == LoginCaptchaStep::IssueChallenge,
{
    if recent_failures < CAPTCHA_AFTER_FAILURES {
        return LoginCaptchaStep::NotRequired;
    }
    if is_non_empty(&req.captcha_challenge_id) && is_non_empty(&req.captcha_answer) {
        LoginCaptchaStep::CheckAnswer
    } else {
        LoginCaptchaStep::IssueChallenge
    }
}

/// Outcome of checking credentials, in the order the checks run.
#[derive(Debug, Clone, Copy, PartialEq, Eq, Structural)]
pub enum CredentialVerdict {
    /// No account for the identifier: the failure is recorded.
    UnknownIdentifier,
    /// Banned or suspended account: refused, nothing recorded.
    AccountBlocked,
    /// Wrong password: the failure is recorded and feeds the risk score.
    WrongPassword,
    /// Right password, email not verified yet.
    EmailNotVerified,
    /// Proceed to 2FA / device checks.
    Accepted,
}

pub open spec fn is_blocked_status(status: Seq<char>) -> bool {
    status == "banned"@ || status == "suspended"@
}

pub open spec fn spec_check_credentials(
    user: Option<(Seq<char>, Seq<char>, i64)>,
    password: Seq<char>,
) -> CredentialVerdict {
    match user {
        None => CredentialVerdict::UnknownIdentifier,
        Some((hash, status, email_verified)) => if is_blocked_status(status) {
            CredentialVerdict::AccountBlocked
        } else if !spec_password_matches(password, hash) {
            CredentialVerdict::WrongPassword
        } else if email_verified == 0 {
            CredentialVerdict::EmailNotVerified
        } else {
            CredentialVerdict::Accepted
        },
    }
}

pub open spec fn auth_row_view(u: Option<&UserAuthRow>) -> Option<(Seq<char>, Seq<char>, i64)> {
    match u {
        Some(u) => Some((u.password_hash@, u.status@, u.email_verified)),
        None => None,
    }
}

/// Checks a looked-up account (or its absence) against the submitted password.
pub fn check_credentials(user: Option<&UserAuthRow>, password: &str) -> (v: CredentialVerdict)
    ensures
        v == spec_check_credentials(auth_row_view(user), password@),
{
    match user {
        None => CredentialVerdict::UnknownIdentifier,
        Some(u) => {
            if u.status.as_str().eq("banned") || u.status.as_str().eq("suspended") {
                return CredentialVerdict::AccountBlocked;
            }
            if !verify_password(password, u.password_hash.as_str()) {
                return CredentialVerdict::WrongPassword;
            }
            if u.email_verified == 0 {
                return CredentialVerdict::EmailNotVerified;
            }
            CredentialVerdict::Accepted
        },
    }
}

pub open spec fn spec_credential_result(v: CredentialVerdict) -> Result<(), AuthError> {
    match v {
        CredentialVerdict::EmailNotVerified => Err(AuthError::EmailNotVerified),
        CredentialVerdict::Accepted => Ok(()),
        _ => Err(AuthError::InvalidCredentials),
    }
}

/// The answer the client gets for a verdict.
pub fn credential_result(v: CredentialVerdict) -> (r: Result<(), AuthError>)
    ensures
        r == spec_credential_result(v),
{
    match v {
        CredentialVerdict::EmailNotVerified => Err(AuthError::EmailNotVerified),
        CredentialVerdict::Accepted => Ok(()),
        _ => Err(AuthError::InvalidCredentials),
    }
}

/// Whether a failed attempt is recorded against the identifier.
pub fn records_failed_attempt(v: CredentialVerdict) -> (r: bool)
    ensures
        r == (v == CredentialVerdict::UnknownIdentifier || v == CredentialVerdict::WrongPassword),
{
    match v {
        CredentialVerdict::UnknownIdentifier | CredentialVerdict::WrongPassword => true,
        _ => false,
    }
}

/// No account enumeration: an unknown identifier, a blocked account and a
/// wrong password all get the same answer.
pub proof fn lemma_login_errors_indistinguishable(
    user: Option<(Seq<char>, Seq<char>, i64)>,
    password: Seq<char>,
)
    ensures
        ({
            let v = spec_check_credentials(user, password);
            v == CredentialVerdict::UnknownIdentifier || v == CredentialVerdict::AccountBlocked || v
                == CredentialVerdict::WrongPassword ==> spec_credential_result(v) == Err::<
                (),
                AuthError,
            >(AuthError::InvalidCredentials)
        }),
{
}

/// A banned or suspended account never logs in, whatever the password.
pub proof fn lemma_blocked_account_never_logs_in(
    hash: Seq<char>,
    status: Seq<char>,
    email_verified: i64,
    password: Seq<char>,
)
    requires
        is_blocked_status(status),
    ensures
        spec_credential_result(
            spec_check_credentials(Some((hash, status, email_verified)), password),
        ) is Err,
{
}

/// Banned and suspended accounts never get in: for either status the verdict
/// is `AccountBlocked` whatever the password, and an accepted login always
/// belongs to an account that is neither banned nor suspended, whose password
/// matched and whose e-mail is verified.
pub proof fn lemma_banned_or_suspended_blocked(
    hash: Seq<char>,
    status: Seq<char>,
    email_verified: i64,
    password: Seq<char>,
)
    ensures
        (status == "banned"@ || status == "suspended"@) ==> spec_check_credentials(
            Some((hash, status, email_verified)),
            password,
        ) == CredentialVerdict::AccountBlocked,
        spec_check_credentials(Some((hash, status, email_verified)), password)
            == CredentialVerdict::Accepted ==> status != "banned"@ && status != "suspended"@
            && spec_password_matches(password, hash) && email_verified != 0,
        (status == "banned"@ || status == "suspended"@) ==> spec_credential_result(
            spec_check_credentials(Some((hash, status, email_verified)), password),
        ) is Err,
{
}

/// The checks in order: no account is `UnknownIdentifier`; an account that is
/// not blocked and whose password does not match is `WrongPassword`; a right
/// password on an unverified e-mail is `EmailNotVerified`; only a right
/// password on a verified, unblocked account is accepted.
pub proof fn lemma_credential_checks(
    hash: Seq<char>,
    status: Seq<char>,
    email_verified: i64,
    password: Seq<char>,
)
    ensures
        spec_check_credentials(None, password) == CredentialVerdict::UnknownIdentifier,
        status != "banned"@ && status != "suspended"@ && !spec_password_matches(password, hash)
            ==> spec_check_credentials(Some((hash, status, email_verified)), password)
            == CredentialVerdict::WrongPassword,
        status != "banned"@ && status != "suspended"@ && spec_password_matches(password, hash)
            ==> spec_check_credentials(Some((hash, status, email_verified)), password) == (
        if email_verified == 0 {
            CredentialVerdict::EmailNotVerified
        } else {
            CredentialVerdict::Accepted
        }),
{
}

} // verus!
