//! Errors of the admin panel.
use vstd::prelude::*;

use crate::reply::{error_reply, reply_view, ErrorReply};

verus! {

#[derive(Debug, Clone)]
pub enum AdminError {
    /// The caller's role may not use this section.
    Forbidden,
    ReauthRequired,
    /// The re-entered password was wrong.
    ReauthFailed,
    NotFound,
    /// The request was refused; the text says why.
    ValidationFailed(String),
    Unauthorized,
    Internal,
}

/// The refusal `ValidationFailed` with the given text.
pub open spec fn is_validation_failure<T>(r: Result<T, AdminError>, msg: Seq<char>) -> bool {
    r matches Err(AdminError::ValidationFailed(m)) && m@ == msg
}

pub open spec fn spec_admin_reply(e: AdminError) -> (u16, Seq<char>, Seq<char>) {
    match e {
        AdminError::Forbidden => (403, "forbidden"@, "You don't have permission for this action."@),
        AdminError::ReauthRequired => (401, "reauth_required"@, "Please re-enter your password to continue."@),
        AdminError::ReauthFailed => (401, "reauth_failed"@, "Incorrect password."@),
        AdminError::NotFound => (404, "not_found"@, "Not found."@),
        AdminError::ValidationFailed(msg) => (400, "validation_failed"@, msg@),
        AdminError::Unauthorized => (401, "unauthorized"@, "Session expired. Please log in again."@),
        AdminError::Internal => (500, "internal_error"@, "Something went wrong."@),
    }
}

impl AdminError {
    /// The HTTP status, code and message this error answers with.
    pub fn reply(&self) -> (r: ErrorReply)
        ensures
            reply_view(r) == spec_admin_reply(*self),
    {
        match self {
            AdminError::Forbidden => error_reply(
                403,
                "forbidden",
                String::from_str("You don't have permission for this action."),
            ),
            AdminError::ReauthRequired => error_reply(
                401,
                "reauth_required",
                String::from_str("Please re-enter your password to continue."),
            ),
            AdminError::ReauthFailed => error_reply(401, "reauth_failed", String::from_str("Incorrect password.")),
            AdminError::NotFound => error_reply(404, "not_found", String::from_str("Not found.")),
            AdminError::ValidationFailed(msg) => error_reply(400, "validation_failed", msg.clone()),
            AdminError::Unauthorized => error_reply(
                401,
                "unauthorized",
                String::from_str("Session expired. Please log in again."),
            ),
            AdminError::Internal => error_reply(500, "internal_error", String::from_str("Something went wrong.")),
        }
    }
}

/// A refusal with the given text.
pub fn validation_failed(msg: &str) -> (e: AdminError)
    ensures
        e matches AdminError::ValidationFailed(m) && m@ == msg@,
{
    AdminError::ValidationFailed(String::from_str(msg))
}

} // verus!
