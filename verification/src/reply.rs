//! The JSON error body every failing endpoint answers with:
//! `{"error": {"code": .., "message": ..}}` under an HTTP status.
use vstd::prelude::*;

verus! {

pub struct ErrorReply {
    pub status: u16,
    pub code: String,
    pub message: String,
}

/// A reply as plain values: status, code and message.
pub open spec fn reply_view(r: ErrorReply) -> (u16, Seq<char>, Seq<char>) {
    (r.status, r.code@, r.message@)
}

/// A reply from its three parts.
pub fn error_reply(status: u16, code: &str, message: String) -> (r: ErrorReply)
    ensures
        reply_view(r) == (status, code@, message@),
{
    ErrorReply { status, code: String::from_str(code), message }
}

} // verus!
