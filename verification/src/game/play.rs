//! What a connected player's messages do to a match: the turn check, the
//! move, the end of the game and its recorded reason, resignation, and the
//! seat a returning player takes.
use vstd::prelude::*;

use super::chess::spec_fen_white_to_move;
use super::engine::{spec_game_end, spec_step, GameOutcome, GameState, GameView, Side};
use super::errors::GameError;

verus! {

/// Rating a player queues with when none is stored.
pub const DEFAULT_QUEUE_RATING: i64 = 1200;

pub struct WsAuthQuery {
    pub token: String,
}

pub open spec fn spec_is_my_turn(side: Option<Side>, is_white: bool) -> bool {
    match side {
        Some(Side::White) => is_white,
        Some(Side::Black) => !is_white,
        None => false,
    }
}

/// A move is considered only from the side to move.
pub fn is_my_turn(side: Option<Side>, is_white: bool) -> (r: bool)
    ensures
        r == spec_is_my_turn(side, is_white),
{
    match side {
        Some(Side::White) => is_white,
        Some(Side::Black) => !is_white,
        None => false,
    }
}

pub open spec fn spec_end_reason(o: GameOutcome) -> Seq<char> {
    match o {
        GameOutcome::Draw => "agreement"@,
        _ => "checkmate"@,
    }
}

/// The stored reason for a game that ended on the board: a decisive result
/// there is checkmate, and a drawn one is stored as `agreement`, the only
/// draw reason the match table accepts.
pub fn end_reason(o: GameOutcome) -> (r: String)
    ensures
        r@ == spec_end_reason(o),
{
    match o {
        GameOutcome::Draw => String::from_str("agreement"),
        _ => String::from_str("checkmate"),
    }
}

/// The player who resigns loses.
pub fn resign_outcome(is_white: bool) -> (o: GameOutcome)
    ensures
        is_white ==> o == GameOutcome::BlackWins,
        !is_white ==> o == GameOutcome::WhiteWins,
{
    if is_white {
        GameOutcome::BlackWins
    } else {
        GameOutcome::WhiteWins
    }
}

/// The seat of `user_id` in a running match: `Some(true)` for white,
/// `Some(false)` for black, `None` for someone who does not play in it.
pub fn resume_seat(white_id: &str, black_id: &str, user_id: &str) -> (r: Option<bool>)
    ensures
        white_id@ == user_id@ ==> r == Some(true),
        white_id@ != user_id@ && black_id@ == user_id@ ==> r == Some(false),
        white_id@ != user_id@ && black_id@ != user_id@ ==> r is None,
{
    if white_id.eq(user_id) {
        Some(true)
    } else if black_id.eq(user_id) {
        Some(false)
    } else {
        None
    }
}

/// The other player of a match.
pub fn opponent_of(white_id: String, black_id: String, is_white: bool) -> (r: String)
    ensures
        r@ == (if is_white {
            black_id@
        } else {
            white_id@
        }),
{
    if is_white {
        black_id
    } else {
        white_id
    }
}

/// `white` or `black`.
pub fn color_name(is_white: bool) -> (r: String)
    ensures
        r@ == (if is_white {
            "white"@
        } else {
            "black"@
        }),
{
    if is_white {
        String::from_str("white")
    } else {
        String::from_str("black")
    }
}

/// The rating a player enters the queue with.
pub fn queue_rating(stored: Option<i64>) -> (r: i64)
    ensures
        r == match stored {
            Some(x) => x,
            None => DEFAULT_QUEUE_RATING,
        },
{
    match stored {
        Some(x) => x,
        None => DEFAULT_QUEUE_RATING,
    }
}

/// What a move message led to.
#[derive(Debug, Clone, Copy, PartialEq, Eq, Structural)]
pub enum MoveOutcome {
    /// Not this player's turn; nothing changed.
    NotYourTurn,
    /// Not a legal move; nothing changed.
    Illegal,
    /// Played; the game may have ended with it.
    Played { ended: Option<GameOutcome> },
}

pub open spec fn move_uci(from: Seq<char>, to: Seq<char>, promotion: Option<Seq<char>>) -> Seq<char> {
    from + to + match promotion {
        Some(p) => p,
        None => Seq::empty(),
    }
}

pub open spec fn side_of(v: GameView) -> Option<Side> {
    match spec_fen_white_to_move(v.fen) {
        Some(true) => Some(Side::White),
        Some(false) => Some(Side::Black),
        None => None,
    }
}

/// One move message from the player on `is_white`'s side: refused unless it
/// is that side's turn and the move is legal; otherwise played, and the end
/// of the game (if it came) reported.
pub fn play_move(game: &mut GameState, is_white: bool, from: &str, to: &str, promotion: Option<&str>) -> (r:
    MoveOutcome)
    ensures
        !spec_is_my_turn(side_of(old(game).view()), is_white) ==> r == MoveOutcome::NotYourTurn
            && final(game).view() == old(game).view(),
        spec_is_my_turn(side_of(old(game).view()), is_white) ==> match spec_step(
            old(game).view(),
            move_uci(
                from@,
                to@,
                match promotion {
                    Some(p) => Some(p@),
                    None => None,
                },
            ),
        ) {
            Some(next) => final(game).view() == next && r == (MoveOutcome::Played {
                ended: spec_game_end(next),
            }),
            None => r == MoveOutcome::Illegal && final(game).view() == old(game).view(),
        },
{
    let side = game.side_to_move();
    if !is_my_turn(side, is_white) {
        return MoveOutcome::NotYourTurn;
    }
    match game.try_apply_move(from, to, promotion) {
        Ok(()) => MoveOutcome::Played { ended: game.check_game_end() },
        Err(_) => MoveOutcome::Illegal,
    }
}


/// Whether `user_id` may see a match, and on which side: only its two
/// players may (`Unauthorized` otherwise); `true` for white.
pub fn viewer_seat(white_id: &str, black_id: &str, user_id: &str) -> (r: Result<bool, GameError>)
    ensures
        white_id@ == user_id@ ==> r == Ok::<bool, GameError>(true),
        white_id@ != user_id@ && black_id@ == user_id@ ==> r == Ok::<bool, GameError>(false),
        white_id@ != user_id@ && black_id@ != user_id@ ==> r == Err::<bool, GameError>(
            GameError::Unauthorized,
        ),
{
    match resume_seat(white_id, black_id, user_id) {
        Some(w) => Ok(w),
        None => Err(GameError::Unauthorized),
    }
}

} // verus!
