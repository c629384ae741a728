//! The server-side authority on a match: it replays and validates moves,
//! keeps the move history, and decides when the game is over.
use vstd::prelude::*;

use super::chess::{
    fen_after_uci, fen_first_legal_uci, fen_halfmoves, fen_is_checkmate,
    fen_is_insufficient_material, fen_is_stalemate, fen_white_to_move, opt_string_view,
    spec_fen_after_uci, spec_fen_first_legal_uci, spec_fen_halfmoves, spec_fen_is_checkmate,
    spec_fen_is_insufficient_material, spec_fen_is_stalemate, spec_fen_white_to_move,
    spec_start_fen, start_fen,
};
use super::errors::GameError;
use crate::text::{chars_of, string_of, strings_view};

verus! {

#[derive(Debug, Clone, Copy, PartialEq, Eq, Structural)]
pub enum GameOutcome {
    WhiteWins,
    BlackWins,
    Draw,
}

/// Which side is to move.
#[derive(Debug, Clone, Copy, PartialEq, Eq, Structural)]
pub enum Side {
    White,
    Black,
}

/// Authoritative game state: the current position (as FEN), the moves played
/// (UCI text, in order) and, for threefold repetition, the position key seen
/// after each ply (and at the start).
pub struct GameState {
    fen: String,
    pub move_history: Vec<String>,
    repetition_log: Vec<String>,
}

/// The mathematical content of a `GameState`.
pub struct GameView {
    pub fen: Seq<char>,
    pub history: Seq<Seq<char>>,
    pub keys: Seq<Seq<char>>,
}

/// Characters of `s` before its `n`-th space (all of `s` when it has fewer spaces).
pub open spec fn prefix_before_nth_space(s: Seq<char>, n: nat) -> Seq<char>
    decreases s.len(),
{
    if s.len() == 0 || n == 0 {
        Seq::empty()
    } else if s[0] == ' ' {
        if n == 1 {
            Seq::empty()
        } else {
            seq![' '] + prefix_before_nth_space(s.drop_first(), (n - 1) as nat)
        }
    } else {
        seq![s[0]] + prefix_before_nth_space(s.drop_first(), n)
    }
}

/// Repetition key of a FEN: its first four space-separated fields (board,
/// side to move, castling, en passant), without the two move counters.
pub open spec fn spec_repetition_key(fen: Seq<char>) -> Seq<char> {
    prefix_before_nth_space(fen, 4)
}

pub open spec fn initial_view() -> GameView {
    GameView {
        fen: spec_start_fen(),
        history: Seq::empty(),
        keys: seq![spec_repetition_key(spec_start_fen())],
    }
}

/// One ply: the move `uci` played in the state `v`, or `None` when it is illegal.
pub open spec fn spec_step(v: GameView, uci: Seq<char>) -> Option<GameView> {
    match spec_fen_after_uci(v.fen, uci) {
        Some(next) => Some(
            GameView {
                fen: next,
                history: v.history.push(uci),
                keys: v.keys.push(spec_repetition_key(next)),
            },
        ),
        None => None,
    }
}

/// Replaying a whole move list from the initial position.
pub open spec fn spec_replay(moves: Seq<Seq<char>>) -> Option<GameView>
    decreases moves.len(),
{
    if moves.len() == 0 {
        Some(initial_view())
    } else {
        match spec_replay(moves.drop_last()) {
            Some(v) => spec_step(v, moves.last()),
            None => None,
        }
    }
}

/// How many entries of `s` equal `x`.
pub open spec fn count_eq(s: Seq<Seq<char>>, x: Seq<char>) -> nat
    decreases s.len(),
{
    if s.len() == 0 {
        0
    } else {
        count_eq(s.drop_last(), x) + if s.last() == x {
            1nat
        } else {
            0nat
        }
    }
}

/// Game-end rule: checkmate (the side to move loses), then stalemate or
/// insufficient material, then the fifty-move rule (100 halfmoves), then
/// threefold repetition of the latest position key.
pub open spec fn spec_game_end(v: GameView) -> Option<GameOutcome> {
    if spec_fen_is_checkmate(v.fen) == Some(true) {
        if spec_fen_white_to_move(v.fen) == Some(true) {
            Some(GameOutcome::BlackWins)
        } else {
            Some(GameOutcome::WhiteWins)
        }
    } else if spec_fen_is_stalemate(v.fen) == Some(true) || spec_fen_is_insufficient_material(v.fen)
        == Some(true) {
        Some(GameOutcome::Draw)
    } else if (match spec_fen_halfmoves(v.fen) {
        Some(h) => h >= 100,
        None => false,
    }) {
        Some(GameOutcome::Draw)
    } else if v.keys.len() > 0 && count_eq(v.keys, v.keys.last()) >= 3 {
        Some(GameOutcome::Draw)
    } else {
        None
    }
}

/// Move history written out as a space-separated list.
pub open spec fn spec_join_moves(moves: Seq<Seq<char>>) -> Seq<char>
    decreases moves.len(),
{
    if moves.len() == 0 {
        Seq::empty()
    } else if moves.len() == 1 {
        moves[0]
    } else {
        spec_join_moves(moves.drop_last()) + seq![' '] + moves.last()
    }
}

/// Replay extends ply by ply: the state reached by replaying a history and
/// then playing one more move is the state reached by replaying the longer
/// history.
pub proof fn lemma_replay_push(moves: Seq<Seq<char>>, uci: Seq<char>)
    ensures
        spec_replay(moves.push(uci)) == match spec_replay(moves) {
            Some(v) => spec_step(v, uci),
            None => None,
        },
{
    assert(moves.push(uci).drop_last() =~= moves);
}

/// A replayed state remembers exactly the moves it was built from, and holds
/// one repetition key per position it passed through.
pub proof fn lemma_replay_history(moves: Seq<Seq<char>>)
    ensures
        spec_replay(moves) matches Some(v) ==> v.history == moves && v.keys.len() == moves.len()
            + 1,
    decreases moves.len(),
{
    if moves.len() > 0 {
        lemma_replay_history(moves.drop_last());
        if let Some(v) = spec_replay(moves.drop_last()) {
            if let Some(w) = spec_step(v, moves.last()) {
                assert(w.history =~= moves);
            }
        }
    }
}

/// Computes the repetition key of a FEN.
pub fn repetition_key(fen: &str) -> (r: String)
    ensures
        r@ == spec_repetition_key(fen@),
{
    let cs = chars_of(fen);
    let mut out: Vec<char> = Vec::new();
    let mut spaces: usize = 0;
    let mut i: usize = 0;
    assert(cs@.skip(0) =~= cs@);
    assert(out@ + prefix_before_nth_space(cs@.skip(0), 4) =~= prefix_before_nth_space(cs@, 4));
    while i < cs.len()
        invariant
            i <= cs.len(),
            cs@ == fen@,
            spaces < 4,
            out@ + prefix_before_nth_space(cs@.skip(i as int), (4 - spaces) as nat)
                == spec_repetition_key(fen@),
        decreases cs.len() - i,
    {
        let c = cs[i];
        assert(cs@.skip(i as int).drop_first() =~= cs@.skip(i + 1));
        if c == ' ' {
            if spaces == 3 {
                assert(out@ + Seq::<char>::empty() =~= out@);
                return string_of(&out);
            }
            spaces += 1;
        }
        out.push(c);
        i += 1;
        assert(out@ + prefix_before_nth_space(cs@.skip(i as int), (4 - spaces) as nat) =~= out@.drop_last() + (seq![c] + prefix_before_nth_space(cs@.skip(i as int), (4 - spaces) as nat)));
    }
    assert(out@ + Seq::<char>::empty() =~= out@);
    string_of(&out)
}

impl GameState {
    pub closed spec fn view(&self) -> GameView {
        GameView {
            fen: self.fen@,
            history: strings_view(self.move_history@),
            keys: strings_view(self.repetition_log@),
        }
    }

    /// A new game from the standard initial position.
    pub fn new() -> (s: Self)
        ensures
            s.view() == initial_view(),
    {
        let fen = start_fen();
        let key = repetition_key(fen.as_str());
        let mut log: Vec<String> = Vec::new();
        log.push(key);
        let s = GameState { fen, move_history: Vec::new(), repetition_log: log };
        assert(s.view().history =~= Seq::<Seq<char>>::empty());
        assert(s.view().keys =~= seq![spec_repetition_key(spec_start_fen())]);
        s
    }

    /// Current position as FEN.
    pub fn fen(&self) -> (r: String)
        ensures
            r@ == self.view().fen,
    {
        self.fen.clone()
    }

    /// Plays the move written in UCI; an illegal move leaves the state untouched.
    pub fn apply_uci_str(&mut self, uci_str: &str) -> (r: Result<(), GameError>)
        ensures
            match spec_step(old(self).view(), uci_str@) {
                Some(next) => r is Ok && final(self).view() == next,
                None => r == Err::<(), GameError>(GameError::IllegalMove) && final(self).view()
                    == old(self).view(),
            },
    {
        match fen_after_uci(self.fen.as_str(), uci_str) {
            Some(next) => {
                let key = repetition_key(next.as_str());
                let ghost old_view = self.view();
                self.fen = next;
                self.move_history.push(String::from_str(uci_str));
                self.repetition_log.push(key);
                assert(self.view().history =~= old_view.history.push(uci_str@));
                assert(self.view().keys =~= old_view.keys.push(spec_repetition_key(self.fen@)));
                Ok(())
            },
            None => Err(GameError::IllegalMove),
        }
    }

    /// Validates and plays the move `from`-`to` (with optional promotion
    /// piece). An illegal move returns `IllegalMove` and changes nothing.
    pub fn try_apply_move(&mut self, from: &str, to: &str, promotion: Option<&str>) -> (r: Result<
        (),
        GameError,
    >)
        ensures
            ({
                let uci = from@ + to@ + match promotion {
                    Some(p) => p@,
                    None => Seq::empty(),
                };
                match spec_step(old(self).view(), uci) {
                    Some(next) => r is Ok && final(self).view() == next,
                    None => r == Err::<(), GameError>(GameError::IllegalMove)
                        && final(self).view() == old(self).view(),
                }
            }),
    {
        let mut uci = String::from_str(from);
        uci.append(to);
        match promotion {
            Some(p) => uci.append(p),
            None => {
                assert(uci@ + Seq::<char>::empty() =~= uci@);
            },
        }
        self.apply_uci_str(uci.as_str())
    }

    /// Rebuilds the authoritative state by replaying stored moves; the first
    /// illegal move makes the whole replay fail.
    pub fn from_move_history(moves: &Vec<String>) -> (r: Result<Self, GameError>)
        ensures
            match spec_replay(strings_view(moves@)) {
                Some(v) => r matches Ok(s) && s.view() == v,
                None => r == Err::<Self, GameError>(GameError::IllegalMove),
            },
    {
        let mut state = GameState::new();
        let mut i: usize = 0;
        while i < moves.len()
            invariant
                i <= moves.len(),
                spec_replay(strings_view(moves@.take(i as int))) == Some(state.view()),
            decreases moves.len() - i,
        {
            let ghost prefix = strings_view(moves@.take(i as int));
            proof {
                lemma_replay_push(prefix, moves@[i as int]@);
                assert(strings_view(moves@.take(i + 1)) =~= prefix.push(moves@[i as int]@));
            }
            match state.apply_uci_str(moves[i].as_str()) {
                Ok(()) => {},
                Err(e) => {
                    proof {
                        assert(strings_view(moves@).take(i + 1) =~= strings_view(moves@.take(i + 1)));
                        lemma_replay_none_extends(strings_view(moves@), i as int + 1);
                    }
                    return Err(e);
                },
            }
            i += 1;
        }
        assert(moves@.take(moves.len() as int) =~= moves@);
        Ok(state)
    }

    /// Whether the game has ended, and how.
    pub fn check_game_end(&self) -> (r: Option<GameOutcome>)
        ensures
            r == spec_game_end(self.view()),
    {
        let fen = self.fen.as_str();
        if fen_is_checkmate(fen) == Some(true) {
            return if fen_white_to_move(fen) == Some(true) {
                Some(GameOutcome::BlackWins)
            } else {
                Some(GameOutcome::WhiteWins)
            };
        }
        if fen_is_stalemate(fen) == Some(true) || fen_is_insufficient_material(fen) == Some(true) {
            return Some(GameOutcome::Draw);
        }
        match fen_halfmoves(fen) {
            Some(h) => {
                if h >= 100 {
                    return Some(GameOutcome::Draw);
                }
            },
            None => {},
        }
        let n = self.repetition_log.len();
        if n == 0 {
            return None;
        }
        let last = &self.repetition_log[n - 1];
        let ghost keys = self.view().keys;
        let mut count: u64 = 0;
        let mut i: usize = 0;
        while i < n
            invariant
                i <= n,
                n == self.repetition_log.len(),
                keys == strings_view(self.repetition_log@),
                last@ == keys.last(),
                count == count_eq(keys.take(i as int), keys.last()),
                count <= i,
            decreases n - i,
        {
            assert(keys.take(i + 1).drop_last() =~= keys.take(i as int));
            if self.repetition_log[i] == *last {
                count += 1;
            }
            i += 1;
        }
        assert(keys.take(n as int) =~= keys);
        if count >= 3 {
            Some(GameOutcome::Draw)
        } else {
            None
        }
    }

    /// Side to move (`None` only when the stored position cannot be read).
    pub fn side_to_move(&self) -> (r: Option<Side>)
        ensures
            r == match spec_fen_white_to_move(self.view().fen) {
                Some(true) => Some(Side::White),
                Some(false) => Some(Side::Black),
                None => None::<Side>,
            },
    {
        match fen_white_to_move(self.fen.as_str()) {
            Some(true) => Some(Side::White),
            Some(false) => Some(Side::Black),
            None => None,
        }
    }

    /// The moves so far, space-separated.
    pub fn to_pgn(&self) -> (r: String)
        ensures
            r@ == spec_join_moves(self.view().history),
    {
        let ghost hist = self.view().history;
        let mut out = String::new();
        let mut i: usize = 0;
        while i < self.move_history.len()
            invariant
                i <= self.move_history.len(),
                hist == strings_view(self.move_history@),
                out@ == spec_join_moves(hist.take(i as int)),
            decreases self.move_history.len() - i,
        {
            assert(hist.take(i + 1).drop_last() =~= hist.take(i as int));
            assert(hist.take(i + 1).last() == self.move_history@[i as int]@);
            if i != 0 {
                proof {
                    reveal_strlit(" ");
                }
                out.append(" ");
            } else {
                assert(hist.take(1)[0] == self.move_history@[0]@);
                assert(out@ + self.move_history@[0]@ =~= self.move_history@[0]@);
            }
            out.append(self.move_history[i].as_str());
            i += 1;
        }
        assert(hist.take(self.move_history.len() as int) =~= hist);
        out
    }

    /// The first legal move in the current position, in UCI (a stand-in for a
    /// real engine suggestion).
    pub fn best_move_placeholder(&self) -> (r: Option<String>)
        ensures
            opt_string_view(r) == spec_fen_first_legal_uci(self.view().fen),
    {
        fen_first_legal_uci(self.fen.as_str())
    }
}

/// Once a prefix of a move list fails to replay, the whole list fails.
pub proof fn lemma_replay_none_extends(moves: Seq<Seq<char>>, k: int)
    requires
        0 <= k <= moves.len(),
        spec_replay(moves.take(k)) is None,
    ensures
        spec_replay(moves) is None,
    decreases moves.len() - k,
{
    if k < moves.len() {
        assert(moves.take(k + 1).drop_last() =~= moves.take(k));
        lemma_replay_none_extends(moves, k + 1);
    } else {
        assert(moves.take(k) =~= moves);
    }
}

/// Replaying the history of any state reached by replay gives that same state
/// back: what `from_move_history` rebuilds after a restart is exactly the
/// state the live game was in.
pub proof fn lemma_replay_own_history(moves: Seq<Seq<char>>)
    requires
        spec_replay(moves) is Some,
    ensures
        spec_replay(spec_replay(moves)->0.history) == spec_replay(moves),
{
    lemma_replay_history(moves);
}

/// A checkmated side loses: when the position is checkmate, the game ends in
/// a win for the side that is not to move (Black to move: White wins; White
/// to move: Black wins).
pub proof fn lemma_checkmate_side_to_move_loses(v: GameView)
    ensures
        spec_fen_is_checkmate(v.fen) == Some(true) && spec_fen_white_to_move(v.fen) == Some(false)
            ==> spec_game_end(v) == Some(GameOutcome::WhiteWins),
        spec_fen_is_checkmate(v.fen) == Some(true) && spec_fen_white_to_move(v.fen) == Some(true)
            ==> spec_game_end(v) == Some(GameOutcome::BlackWins),
{
}

/// The draws: a position that is not checkmate ends drawn when it is
/// stalemate, when neither side can mate, when the halfmove clock has reached
/// 100, or when the latest position has occurred three times; a game with
/// none of these (and no checkmate) goes on.
pub proof fn lemma_game_end_draws(v: GameView)
    ensures
        spec_fen_is_checkmate(v.fen) != Some(true) && spec_fen_is_stalemate(v.fen) == Some(true)
            ==> spec_game_end(v) == Some(GameOutcome::Draw),
        spec_fen_is_checkmate(v.fen) != Some(true) && spec_fen_is_insufficient_material(v.fen)
            == Some(true) ==> spec_game_end(v) == Some(GameOutcome::Draw),
        spec_fen_is_checkmate(v.fen) != Some(true) && (spec_fen_halfmoves(v.fen) matches Some(h)
            && h >= 100) ==> spec_game_end(v) == Some(GameOutcome::Draw),
        spec_fen_is_checkmate(v.fen) != Some(true) && v.keys.len() > 0 && count_eq(
            v.keys,
            v.keys.last(),
        ) >= 3 ==> spec_game_end(v) == Some(GameOutcome::Draw),
        spec_game_end(v) is None <==> {
            &&& spec_fen_is_checkmate(v.fen) != Some(true)
            &&& spec_fen_is_stalemate(v.fen) != Some(true)
            &&& spec_fen_is_insufficient_material(v.fen) != Some(true)
            &&& !(spec_fen_halfmoves(v.fen) matches Some(h) && h >= 100)
            &&& !(v.keys.len() > 0 && count_eq(v.keys, v.keys.last()) >= 3)
        },
        spec_game_end(v) == Some(GameOutcome::WhiteWins) || spec_game_end(v) == Some(
            GameOutcome::BlackWins,
        ) ==> spec_fen_is_checkmate(v.fen) == Some(true),
{
}

} // verus!
