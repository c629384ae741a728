//! Errors of the match, hint and invite flows.
use vstd::prelude::*;

use crate::reply::{error_reply, reply_view, ErrorReply};

verus! {

#[derive(Debug, Clone, Copy, PartialEq, Eq, Structural)]
pub enum GameError {
    IllegalMove,
    NotYourTurn,
    MatchNotFound,
    MatchAlreadyEnded,
    HintLimitReached,
    InsufficientCoinsForHint,
    HintNotAllowedInRanked,
    InviteNotFound,
    CannotInviteSelf,
    ReceiverNotFound,
    Unauthorized,
    Internal,
}

pub open spec fn spec_game_reply(e: GameError) -> (u16, Seq<char>, Seq<char>) {
    match e {
        GameError::IllegalMove => (400, "illegal_move"@, "That move is not legal."@),
        GameError::NotYourTurn => (400, "not_your_turn"@, "It's not your turn."@),
        GameError::MatchNotFound => (404, "match_not_found"@, "Match not found."@),
        GameError::MatchAlreadyEnded => (400, "match_ended"@, "This match has already ended."@),
        GameError::HintLimitReached => (400, "hint_limit_reached"@, "You've used both hints for this match."@),
        GameError::InsufficientCoinsForHint => (402, "insufficient_coins"@, "Not enough coins for this hint."@),
        GameError::HintNotAllowedInRanked => (403, "hint_not_allowed"@, "Hints are not available in ranked matches."@),
        GameError::InviteNotFound => (404, "invite_not_found"@, "Invite not found."@),
        GameError::CannotInviteSelf => (400, "cannot_invite_self"@, "You can't invite yourself."@),
        GameError::ReceiverNotFound => (404, "receiver_not_found"@, "This user could not be found."@),
        GameError::Unauthorized => (401, "unauthorized"@, "Session expired. Please log in again."@),
        GameError::Internal => (500, "internal_error"@, "Something went wrong. Please try again."@),
    }
}

impl GameError {
    /// The HTTP status, code and message this error answers with.
    pub fn reply(&self) -> (r: ErrorReply)
        ensures
            reply_view(r) == spec_game_reply(*self),
    {
        match self {
            GameError::IllegalMove => error_reply(400, "illegal_move", String::from_str("That move is not legal.")),
            GameError::NotYourTurn => error_reply(400, "not_your_turn", String::from_str("It's not your turn.")),
            GameError::MatchNotFound => error_reply(404, "match_not_found", String::from_str("Match not found.")),
            GameError::MatchAlreadyEnded => error_reply(400, "match_ended", String::from_str("This match has already ended.")),
            GameError::HintLimitReached => error_reply(400, "hint_limit_reached", String::from_str("You've used both hints for this match.")),
            GameError::InsufficientCoinsForHint => error_reply(402, "insufficient_coins", String::from_str("Not enough coins for this hint.")),
            GameError::HintNotAllowedInRanked => error_reply(403, "hint_not_allowed", String::from_str("Hints are not available in ranked matches.")),
            GameError::InviteNotFound => error_reply(404, "invite_not_found", String::from_str("Invite not found.")),
            GameError::CannotInviteSelf => error_reply(400, "cannot_invite_self", String::from_str("You can't invite yourself.")),
            GameError::ReceiverNotFound => error_reply(404, "receiver_not_found", String::from_str("This user could not be found.")),
            GameError::Unauthorized => error_reply(401, "unauthorized", String::from_str("Session expired. Please log in again.")),
            GameError::Internal => error_reply(500, "internal_error", String::from_str("Something went wrong. Please try again.")),
        }
    }
}

} // verus!
