//! Email-only signup intent: the link is sent without creating an account,
//! and the reply never reveals whether the email is already registered.
use vstd::prelude::*;

use super::errors::AuthError;
use super::register::{redeem_token, single_use_token_check, spec_single_use};
use super::validation::{spec_email_shape, spec_to_lowercase, to_lowercase, validate_email};
use crate::text::{spec_trim, trim};

verus! {

pub struct RegisterIntentRequest {
    pub email: String,
}

pub struct RegisterIntentRecord {
    pub email: String,
    pub token_hash: String,
    pub created_at: String,
    pub expires_at: String,
    pub used: bool,
}

/// Same shape for every outcome.
pub struct RegisterIntentResponse {
    pub status: String,
    pub email_sent: bool,
    pub message: String,
}

pub open spec fn spec_normalized_email(raw: Seq<char>) -> Seq<char> {
    spec_to_lowercase(spec_trim(raw))
}

/// The requested email trimmed and lower-cased, if it is a valid email.
pub fn normalize_intent_email(raw: &str) -> (r: Result<String, AuthError>)
    ensures
        spec_email_shape(spec_normalized_email(raw@)) ==> (r matches Ok(e) && e@
            == spec_normalized_email(raw@)),
        !spec_email_shape(spec_normalized_email(raw@)) ==> r == Err::<String, AuthError>(
            AuthError::EmailFormatInvalid,
        ),
{
    let trimmed = trim(raw);
    let lower = to_lowercase(trimmed.as_str());
    validate_email(lower.as_str())?;
    Ok(lower)
}

#[derive(Debug, Clone, Copy, PartialEq, Eq, Structural)]
pub enum IntentOutcome {
    /// The email already belongs to an account: no new link, generic reply.
    AlreadyRegistered,
    /// No durable store configured: links would not survive a restart.
    StoreUnavailable,
    /// Link stored and emailed.
    Sent,
    /// Link stored, email failed.
    EmailFailed,
}

pub open spec fn spec_intent_response(o: IntentOutcome) -> (Seq<char>, bool, Seq<char>) {
    match o {
        IntentOutcome::AlreadyRegistered => (
            "intent_sent"@,
            false,
            "If this email can be used, you will receive a signup link shortly."@,
        ),
        IntentOutcome::StoreUnavailable => (
            "intent_unavailable"@,
            false,
            "Signup by link is temporarily unavailable. Use full Register."@,
        ),
        IntentOutcome::Sent => ("intent_sent"@, true, "Check your email for a link to finish signup."@),
        IntentOutcome::EmailFailed => (
            "intent_email_failed"@,
            false,
            "Could not send signup email. Try again later or use full Register."@,
        ),
    }
}

pub fn intent_response(o: IntentOutcome) -> (r: RegisterIntentResponse)
    ensures
        (r.status@, r.email_sent, r.message@) == spec_intent_response(o),
{
    let (status, sent, message) = match o {
        IntentOutcome::AlreadyRegistered => (
            "intent_sent",
            false,
            "If this email can be used, you will receive a signup link shortly.",
        ),
        IntentOutcome::StoreUnavailable => (
            "intent_unavailable",
            false,
            "Signup by link is temporarily unavailable. Use full Register.",
        ),
        IntentOutcome::Sent => ("intent_sent", true, "Check your email for a link to finish signup."),
        IntentOutcome::EmailFailed => (
            "intent_email_failed",
            false,
            "Could not send signup email. Try again later or use full Register.",
        ),
    };
    RegisterIntentResponse {
        status: String::from_str(status),
        email_sent: sent,
        message: String::from_str(message),
    }
}

/// No enumeration: an already-registered email gets the same status as a
/// freshly sent link.
pub proof fn lemma_registered_email_not_revealed()
    ensures
        spec_intent_response(IntentOutcome::AlreadyRegistered).0 == spec_intent_response(
            IntentOutcome::Sent,
        ).0,
{
}


/// The outcome decided before any link is made: an already-registered
/// e-mail (as far as the store can tell) gets the generic reply, and without
/// a durable store no link is made; otherwise (`None`) the link is created.
pub fn intent_precheck(store_available: bool, already_registered: bool) -> (o: Option<IntentOutcome>)
    ensures
        store_available && already_registered ==> o == Some(IntentOutcome::AlreadyRegistered),
        !store_available ==> o == Some(IntentOutcome::StoreUnavailable),
        store_available && !already_registered ==> o is None,
{
    if store_available && already_registered {
        Some(IntentOutcome::AlreadyRegistered)
    } else if !store_available {
        Some(IntentOutcome::StoreUnavailable)
    } else {
        None
    }
}

/// The outcome once the link is stored: sent, or the mail failed.
pub fn sent_outcome(email_sent: bool) -> (o: IntentOutcome)
    ensures
        o == (if email_sent {
            IntentOutcome::Sent
        } else {
            IntentOutcome::EmailFailed
        }),
{
    if email_sent {
        IntentOutcome::Sent
    } else {
        IntentOutcome::EmailFailed
    }
}

/// A signup link is good once: refused (`Unauthorized`) when unknown, used
/// or expired; an unreadable expiry is `Internal`.
pub fn consume_check(found: bool, used: bool, expired: Option<bool>) -> (r: Result<(), AuthError>)
    ensures
        !found ==> r == Err::<(), AuthError>(AuthError::Unauthorized),
        found ==> r == spec_single_use(used, expired, AuthError::Unauthorized),
{
    if !found {
        return Err(AuthError::Unauthorized);
    }
    single_use_token_check(used, expired, AuthError::Unauthorized)
}

/// Consumes a stored signup link (`expired`: whether its expiry has passed,
/// `None` when unreadable): the answer is that of `consume_check` for a found
/// record, and a consumed record is marked used, all else unchanged.
pub fn consume_record(record: &mut RegisterIntentRecord, expired: Option<bool>) -> (r: Result<
    (),
    AuthError,
>)
    ensures
        r == spec_single_use(old(record).used, expired, AuthError::Unauthorized),
        final(record).used == (old(record).used || r is Ok),
        final(record).email == old(record).email,
        final(record).token_hash == old(record).token_hash,
        final(record).created_at == old(record).created_at,
        final(record).expires_at == old(record).expires_at,
{
    redeem_token(&mut record.used, expired, AuthError::Unauthorized)
}

/// A signup link works once: after it has been consumed, consuming it again
/// is refused as `Unauthorized`, whatever its expiry then reads; an unknown
/// link is refused too.
pub proof fn lemma_signup_link_consumed_once(used: bool, expired1: Option<bool>, expired2: Option<bool>)
    requires
        spec_single_use(used, expired1, AuthError::Unauthorized) is Ok,
    ensures
        spec_single_use(
            used || spec_single_use(used, expired1, AuthError::Unauthorized) is Ok,
            expired2,
            AuthError::Unauthorized,
        ) == Err::<(), AuthError>(AuthError::Unauthorized),
{
}

} // verus!
