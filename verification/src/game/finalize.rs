//! Closing a match: the stored result, the rating change (ranked only, with a
//! floor), and the guard that applies it once.
use vstd::prelude::*;

use super::engine::GameOutcome;

verus! {

/// Lowest rating a ranked result can leave a player with.
pub const RATING_FLOOR: i64 = 100;

pub open spec fn spec_result_label(o: GameOutcome) -> Seq<char> {
    match o {
        GameOutcome::WhiteWins => "white_win"@,
        GameOutcome::BlackWins => "black_win"@,
        GameOutcome::Draw => "draw"@,
    }
}

/// The `result` column's value for an outcome.
pub fn result_label(o: GameOutcome) -> (r: String)
    ensures
        r@ == spec_result_label(o),
{
    match o {
        GameOutcome::WhiteWins => String::from_str("white_win"),
        GameOutcome::BlackWins => String::from_str("black_win"),
        GameOutcome::Draw => String::from_str("draw"),
    }
}

pub open spec fn spec_score_halves(o: GameOutcome, for_white: bool) -> i64 {
    match o {
        GameOutcome::WhiteWins => if for_white {
            2
        } else {
            0
        },
        GameOutcome::BlackWins => if for_white {
            0
        } else {
            2
        },
        GameOutcome::Draw => 1,
    }
}

/// A player's score in half points: 2 for a win, 1 for a draw, 0 for a loss.
pub fn score_halves(o: GameOutcome, for_white: bool) -> (s: i64)
    ensures
        s == spec_score_halves(o, for_white),
{
    match o {
        GameOutcome::WhiteWins => if for_white {
            2
        } else {
            0
        },
        GameOutcome::BlackWins => if for_white {
            0
        } else {
            2
        },
        GameOutcome::Draw => 1,
    }
}

/// Whether a match type counts for rating.
pub fn is_ranked(match_type: &str) -> (r: bool)
    ensures
        r == (match_type@ == "ranked"@),
{
    match_type.eq("ranked")
}

pub open spec fn floored(r: i64) -> i64 {
    if r < RATING_FLOOR {
        RATING_FLOOR
    } else {
        r
    }
}

pub open spec fn spec_ratings_after(
    ranked: bool,
    white_before: i64,
    black_before: i64,
    white_elo: i64,
    black_elo: i64,
) -> (i64, i64) {
    if ranked {
        (floored(white_elo), floored(black_elo))
    } else {
        (white_before, black_before)
    }
}

/// Ratings after the match: a ranked match takes the Elo results, raised to
/// the floor; any other match leaves both ratings as they were.
pub fn ratings_after(
    ranked: bool,
    white_before: i64,
    black_before: i64,
    white_elo: i64,
    black_elo: i64,
) -> (r: (i64, i64))
    ensures
        r == spec_ratings_after(ranked, white_before, black_before, white_elo, black_elo),
{
    if ranked {
        let w = if white_elo < RATING_FLOOR {
            RATING_FLOOR
        } else {
            white_elo
        };
        let b = if black_elo < RATING_FLOOR {
            RATING_FLOOR
        } else {
            black_elo
        };
        (w, b)
    } else {
        (white_before, black_before)
    }
}

/// What the `match_ended` event reports.
#[derive(Debug, Clone, Copy, PartialEq, Eq, Structural)]
pub struct RatingChange {
    pub white_before: i64,
    pub black_before: i64,
    pub white_after: i64,
    pub black_after: i64,
    pub white_delta: i64,
    pub black_delta: i64,
}

/// The before, after and change of both ratings.
pub fn rating_change(
    ranked: bool,
    white_before: i64,
    black_before: i64,
    white_elo: i64,
    black_elo: i64,
) -> (c: RatingChange)
    requires
        i64::MIN <= spec_ratings_after(ranked, white_before, black_before, white_elo, black_elo).0
            - white_before <= i64::MAX,
        i64::MIN <= spec_ratings_after(ranked, white_before, black_before, white_elo, black_elo).1
            - black_before <= i64::MAX,
    ensures
        (c.white_after, c.black_after) == spec_ratings_after(
            ranked,
            white_before,
            black_before,
            white_elo,
            black_elo,
        ),
        c.white_before == white_before,
        c.black_before == black_before,
        c.white_delta == c.white_after - white_before,
        c.black_delta == c.black_after - black_before,
{
    let (w, b) = ratings_after(ranked, white_before, black_before, white_elo, black_elo);
    RatingChange {
        white_before,
        black_before,
        white_after: w,
        black_after: b,
        white_delta: w - white_before,
        black_delta: b - black_before,
    }
}

/// Ratings are written only by the call that closed the match (the guarded
/// update changed a row) and only for a ranked match.
pub fn should_write_ratings(rows_closed: u64, ranked: bool) -> (r: bool)
    ensures
        r == (rows_closed != 0 && ranked),
{
    rows_closed != 0 && ranked
}

/// A casual or custom match never changes a rating, and a ranked one never
/// leaves a rating under the floor.
pub proof fn lemma_rating_rules(
    ranked: bool,
    white_before: i64,
    black_before: i64,
    white_elo: i64,
    black_elo: i64,
)
    ensures
        !ranked ==> spec_ratings_after(ranked, white_before, black_before, white_elo, black_elo)
            == (white_before, black_before),
        ranked ==> spec_ratings_after(ranked, white_before, black_before, white_elo, black_elo).0
            >= RATING_FLOOR && spec_ratings_after(
            ranked,
            white_before,
            black_before,
            white_elo,
            black_elo,
        ).1 >= RATING_FLOOR,
{
}

/// The two players' scores always add up to one game point.
pub proof fn lemma_scores_sum_to_one(o: GameOutcome)
    ensures
        spec_score_halves(o, true) + spec_score_halves(o, false) == 2,
{
}

} // verus!
