//! The chess rules themselves come from `shakmaty`. Positions travel through
//! the library as FEN text (`EnPassantMode::Legal`), which records everything
//! a position needs to continue play: board, side to move, castling rights,
//! the en-passant square when a capture is possible, and both move counters.
use vstd::prelude::*;

use shakmaty::fen::Fen;
use shakmaty::uci::Uci;
use shakmaty::{CastlingMode, Chess, Color, EnPassantMode, Position};

verus! {

/// FEN of the standard starting position.
pub open spec fn spec_start_fen() -> Seq<char> {
    "rnbqkbnr/pppppppp/8/8/8/8/PPPPPPPP/RNBQKBNR w KQkq - 0 1"@
}

/// FEN after playing the UCI move `uci` in the position `fen`; `None` when the
/// FEN does not describe a standard-chess position or the move is not legal there.
pub uninterp spec fn spec_fen_after_uci(fen: Seq<char>, uci: Seq<char>) -> Option<Seq<char>>;

/// Whether the side to move in `fen` is checkmated (`None`: not a valid position).
pub uninterp spec fn spec_fen_is_checkmate(fen: Seq<char>) -> Option<bool>;

/// Whether the side to move in `fen` is stalemated (`None`: not a valid position).
pub uninterp spec fn spec_fen_is_stalemate(fen: Seq<char>) -> Option<bool>;

/// Whether neither side has mating material in `fen` (`None`: not a valid position).
pub uninterp spec fn spec_fen_is_insufficient_material(fen: Seq<char>) -> Option<bool>;

/// Halfmove clock of `fen` (`None`: not a valid position).
pub uninterp spec fn spec_fen_halfmoves(fen: Seq<char>) -> Option<u32>;

/// Whether white is to move in `fen` (`None`: not a valid position).
pub uninterp spec fn spec_fen_white_to_move(fen: Seq<char>) -> Option<bool>;

/// UCI text of the first move in shakmaty's legal-move list for `fen`
/// (`None`: no legal move, or not a valid position).
pub uninterp spec fn spec_fen_first_legal_uci(fen: Seq<char>) -> Option<Seq<char>>;

pub open spec fn opt_string_view(o: Option<String>) -> Option<Seq<char>> {
    match o {
        Some(s) => Some(s@),
        None => None,
    }
}

/// `Chess::default()` rendered by `Fen::from_position`: the standard initial position.
#[verifier::external_body]
pub(crate) fn start_fen() -> (r: String)
    ensures
        r@ == spec_start_fen(),
{
    Fen::from_position(Chess::default(), EnPassantMode::Legal).to_string()
}

/// Parses `fen` into a `Chess` position (standard castling), parses `uci`,
/// turns it into a move with `Uci::to_move` and plays it with `Position::play`;
/// the new position is rendered back to FEN. Named: `spec_fen_after_uci`.
#[verifier::external_body]
pub(crate) fn fen_after_uci(fen: &str, uci: &str) -> (r: Option<String>)
    ensures
        opt_string_view(r) == spec_fen_after_uci(fen@, uci@),
{
    let pos: Chess = fen.parse::<Fen>().ok()?.into_position(CastlingMode::Standard).ok()?;
    let parsed: Uci = uci.parse().ok()?;
    let mv = parsed.to_move(&pos).ok()?;
    let next = pos.play(&mv).ok()?;
    Some(Fen::from_position(next, EnPassantMode::Legal).to_string())
}

/// `Position::is_checkmate` on the position `fen` describes. Named: `spec_fen_is_checkmate`.
#[verifier::external_body]
pub(crate) fn fen_is_checkmate(fen: &str) -> (r: Option<bool>)
    ensures
        r == spec_fen_is_checkmate(fen@),
{
    let pos: Chess = fen.parse::<Fen>().ok()?.into_position(CastlingMode::Standard).ok()?;
    Some(pos.is_checkmate())
}

/// `Position::is_stalemate` on the position `fen` describes. Named: `spec_fen_is_stalemate`.
#[verifier::external_body]
pub(crate) fn fen_is_stalemate(fen: &str) -> (r: Option<bool>)
    ensures
        r == spec_fen_is_stalemate(fen@),
{
    let pos: Chess = fen.parse::<Fen>().ok()?.into_position(CastlingMode::Standard).ok()?;
    Some(pos.is_stalemate())
}

/// `Position::is_insufficient_material` on the position `fen` describes.
/// Named: `spec_fen_is_insufficient_material`.
#[verifier::external_body]
pub(crate) fn fen_is_insufficient_material(fen: &str) -> (r: Option<bool>)
    ensures
        r == spec_fen_is_insufficient_material(fen@),
{
    let pos: Chess = fen.parse::<Fen>().ok()?.into_position(CastlingMode::Standard).ok()?;
    Some(pos.is_insufficient_material())
}

/// `Position::halfmoves` on the position `fen` describes. Named: `spec_fen_halfmoves`.
#[verifier::external_body]
pub(crate) fn fen_halfmoves(fen: &str) -> (r: Option<u32>)
    ensures
        r == spec_fen_halfmoves(fen@),
{
    let pos: Chess = fen.parse::<Fen>().ok()?.into_position(CastlingMode::Standard).ok()?;
    Some(pos.halfmoves())
}

/// `Position::turn` on the position `fen` describes, as "white to move".
/// Named: `spec_fen_white_to_move`.
#[verifier::external_body]
pub(crate) fn fen_white_to_move(fen: &str) -> (r: Option<bool>)
    ensures
        r == spec_fen_white_to_move(fen@),
{
    let pos: Chess = fen.parse::<Fen>().ok()?.into_position(CastlingMode::Standard).ok()?;
    Some(pos.turn() == Color::White)
}

/// First entry of `Position::legal_moves`, written with `Uci::from_standard`.
/// Named: `spec_fen_first_legal_uci`.
#[verifier::external_body]
pub(crate) fn fen_first_legal_uci(fen: &str) -> (r: Option<String>)
    ensures
        opt_string_view(r) == spec_fen_first_legal_uci(fen@),
{
    let pos: Chess = fen.parse::<Fen>().ok()?.into_position(CastlingMode::Standard).ok()?;
    let legal = pos.legal_moves();
    Some(Uci::from_standard(legal.first()?).to_string())
}

} // verus!
