//! Custom-match invites: who may be invited, when an invite may still be
//! accepted, and how the colours are dealt.
use vstd::prelude::*;

use super::errors::GameError;

verus! {

/// How long an invite stays open.
pub const INVITE_EXPIRY_HOURS: i64 = 24;

pub open spec fn invite_expiry_ms() -> int {
    INVITE_EXPIRY_HOURS * 3600 * 1000
}

pub struct SendInviteRequest {
    pub receiver_username: String,
}

pub struct InviteResponse {
    pub invite_id: String,
}

pub struct InviteHistoryRow {
    pub id: String,
    pub sender_id: String,
    pub receiver_id: String,
    pub status: String,
    pub match_id: Option<String>,
    pub created_at: String,
}

/// The stored invite as acceptance reads it.
pub struct InviteRow {
    pub sender_id: String,
    pub receiver_id: String,
    pub status: String,
}

pub open spec fn spec_invite_target_check(sender_id: Seq<char>, receiver_id: Option<Seq<char>>) -> Result<
    (),
    GameError,
> {
    match receiver_id {
        None => Err(GameError::ReceiverNotFound),
        Some(r) => if r == sender_id {
            Err(GameError::CannotInviteSelf)
        } else {
            Ok(())
        },
    }
}

/// An invite goes to an existing user other than the sender. `receiver_id`
/// is the id found for the requested username, if any.
pub fn invite_target_check(sender_id: &str, receiver_id: Option<&str>) -> (r: Result<(), GameError>)
    ensures
        r == spec_invite_target_check(
            sender_id@,
            match receiver_id {
                Some(x) => Some(x@),
                None => None,
            },
        ),
{
    match receiver_id {
        None => Err(GameError::ReceiverNotFound),
        Some(r) => {
            if r.eq(sender_id) {
                Err(GameError::CannotInviteSelf)
            } else {
                Ok(())
            }
        },
    }
}

/// What acceptance does with an invite.
#[derive(Debug, Clone, Copy, PartialEq, Eq, Structural)]
pub enum InviteVerdict {
    /// Open, addressed to this user, within its window: the match is created.
    Accept,
    /// Not this user's, or no longer pending.
    NotFound,
    /// Past its window: it is marked expired and refused.
    Expired,
    /// Its creation time cannot be read.
    Unreadable,
}

pub open spec fn spec_invite_verdict(
    invite: InviteRow,
    receiver_id: Seq<char>,
    age_ms: Option<i64>,
) -> InviteVerdict {
    if invite.receiver_id@ != receiver_id || invite.status@ != "pending"@ {
        InviteVerdict::NotFound
    } else {
        match age_ms {
            None => InviteVerdict::Unreadable,
            Some(a) => if a > invite_expiry_ms() {
                InviteVerdict::Expired
            } else {
                InviteVerdict::Accept
            },
        }
    }
}

/// The verdict on `receiver_id` accepting `invite`, created `age_ms`
/// milliseconds ago (`None` when its timestamp cannot be read).
pub fn invite_verdict(invite: &InviteRow, receiver_id: &str, age_ms: Option<i64>) -> (v: InviteVerdict)
    ensures
        v == spec_invite_verdict(*invite, receiver_id@, age_ms),
{
    if !invite.receiver_id.as_str().eq(receiver_id) || !invite.status.as_str().eq("pending") {
        return InviteVerdict::NotFound;
    }
    match age_ms {
        None => InviteVerdict::Unreadable,
        Some(a) => {
            if a > INVITE_EXPIRY_HOURS * 3600 * 1000 {
                InviteVerdict::Expired
            } else {
                InviteVerdict::Accept
            }
        },
    }
}

pub open spec fn spec_verdict_error(v: InviteVerdict) -> Option<GameError> {
    match v {
        InviteVerdict::Accept => None,
        InviteVerdict::NotFound => Some(GameError::InviteNotFound),
        InviteVerdict::Expired => Some(GameError::InviteNotFound),
        InviteVerdict::Unreadable => Some(GameError::Internal),
    }
}

/// The error the caller sees for a verdict; an expired invite looks like a
/// missing one.
pub fn verdict_error(v: InviteVerdict) -> (e: Option<GameError>)
    ensures
        e == spec_verdict_error(v),
{
    match v {
        InviteVerdict::Accept => None,
        InviteVerdict::NotFound => Some(GameError::InviteNotFound),
        InviteVerdict::Expired => Some(GameError::InviteNotFound),
        InviteVerdict::Unreadable => Some(GameError::Internal),
    }
}

/// `(white, black)`: the first player takes white exactly when the coin says so.
pub fn assign_colors(first: String, second: String, first_is_white: bool) -> (r: (String, String))
    ensures
        first_is_white ==> r.0@ == first@ && r.1@ == second@,
        !first_is_white ==> r.0@ == second@ && r.1@ == first@,
{
    if first_is_white {
        (first, second)
    } else {
        (second, first)
    }
}

/// Declining changes exactly the invite's row, or fails as not found.
pub fn decline_result(rows_affected: u64) -> (r: Result<(), GameError>)
    ensures
        r == (if rows_affected == 0 {
            Err(GameError::InviteNotFound)
        } else {
            Ok::<(), GameError>(())
        }),
{
    if rows_affected == 0 {
        Err(GameError::InviteNotFound)
    } else {
        Ok(())
    }
}

/// An invite is accepted only by its receiver, only while pending and only
/// within its window; whoever accepts, the two players are the invite's.
pub proof fn lemma_accept_only_open_own_invites(
    invite: InviteRow,
    receiver_id: Seq<char>,
    age_ms: Option<i64>,
)
    ensures
        spec_invite_verdict(invite, receiver_id, age_ms) == InviteVerdict::Accept ==> {
            &&& invite.receiver_id@ == receiver_id
            &&& invite.status@ == "pending"@
            &&& age_ms matches Some(a) && a <= invite_expiry_ms()
        },
        spec_verdict_error(spec_invite_verdict(invite, receiver_id, age_ms)) is None
            <==> spec_invite_verdict(invite, receiver_id, age_ms) == InviteVerdict::Accept,
{
}


/// The answer to an invite: `accept` (true) or `decline` (false); anything
/// else is treated as an unknown invite.
pub fn invite_answer(decision: &str) -> (r: Result<bool, GameError>)
    ensures
        decision@ == "accept"@ ==> r == Ok::<bool, GameError>(true),
        decision@ == "decline"@ ==> r == Ok::<bool, GameError>(false),
        decision@ != "accept"@ && decision@ != "decline"@ ==> r == Err::<bool, GameError>(
            GameError::InviteNotFound,
        ),
{
    proof {
        reveal_strlit("accept");
        reveal_strlit("decline");
        assert("accept"@.len() == 6);
    }
    if decision.eq("accept") {
        Ok(true)
    } else if decision.eq("decline") {
        Ok(false)
    } else {
        Err(GameError::InviteNotFound)
    }
}

} // verus!
