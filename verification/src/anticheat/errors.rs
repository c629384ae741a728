//! Errors of the anti-cheat endpoints.
use vstd::prelude::*;

use crate::reply::{error_reply, reply_view, ErrorReply};

verus! {

#[derive(Debug, Clone, Copy, PartialEq, Eq, Structural)]
pub enum AntiCheatError {
    CaptchaRequired,
    CaptchaIncorrect,
    RateLimited,
    Banned,
    Internal,
}

pub open spec fn spec_anticheat_reply(e: AntiCheatError) -> (u16, Seq<char>, Seq<char>) {
    match e {
        AntiCheatError::CaptchaRequired => (403, "captcha_required"@, "Please complete the verification challenge."@),
        AntiCheatError::CaptchaIncorrect => (400, "captcha_incorrect"@, "That wasn't quite right — try again."@),
        AntiCheatError::RateLimited => (429, "rate_limited"@, "Too many requests. Please slow down."@),
        AntiCheatError::Banned => (403, "account_banned"@, "This account has been suspended."@),
        AntiCheatError::Internal => (500, "internal_error"@, "Something went wrong."@),
    }
}

impl AntiCheatError {
    /// The HTTP status, code and message this error answers with.
    pub fn reply(&self) -> (r: ErrorReply)
        ensures
            reply_view(r) == spec_anticheat_reply(*self),
    {
        match self {
            AntiCheatError::CaptchaRequired => error_reply(403, "captcha_required", String::from_str("Please complete the verification challenge.")),
            AntiCheatError::CaptchaIncorrect => error_reply(400, "captcha_incorrect", String::from_str("That wasn't quite right — try again.")),
            AntiCheatError::RateLimited => error_reply(429, "rate_limited", String::from_str("Too many requests. Please slow down.")),
            AntiCheatError::Banned => error_reply(403, "account_banned", String::from_str("This account has been suspended.")),
            AntiCheatError::Internal => error_reply(500, "internal_error", String::from_str("Something went wrong.")),
        }
    }
}

} // verus!
