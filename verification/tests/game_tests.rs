use genius_clan::game::engine::{GameOutcome, GameState, Side};
use genius_clan::game::errors::GameError;
use genius_clan::game::finalize::{
    is_ranked, rating_change, ratings_after, result_label, score_halves, should_write_ratings,
    RATING_FLOOR,
};
use genius_clan::game::hint::{
    hint_charge, hint_cost, hint_eligibility, hint_reference, HintCharge, HintMatch,
};
use genius_clan::game::invite::{
    assign_colors, decline_result, invite_answer, invite_target_check, invite_verdict,
    verdict_error, InviteRow, InviteVerdict,
};
use genius_clan::game::matchmaking::{can_pair, current_band, join, leave, sweep, QueueEntry};
use genius_clan::game::play::{
    end_reason, is_my_turn, play_move, queue_rating, resign_outcome, resume_seat, viewer_seat,
    MoveOutcome,
};
use genius_clan::game::clock::MatchClock;
use genius_clan::game::disconnect::DisconnectTracker;

const START_FEN: &str = "rnbqkbnr/pppppppp/8/8/8/8/PPPPPPPP/RNBQKBNR w KQkq - 0 1";

#[test]
fn new_game_starts_from_standard_position() {
    let g = GameState::new();
    assert_eq!(g.fen(), START_FEN);
    assert_eq!(g.side_to_move(), Some(Side::White));
    assert_eq!(g.check_game_end(), None);
    assert_eq!(g.to_pgn(), "");
}

#[test]
fn fools_mate_is_a_black_win() {
    let mut g = GameState::new();
    for (from, to) in [("f2", "f3"), ("e7", "e5"), ("g2", "g4"), ("d8", "h4")] {
        assert_eq!(g.try_apply_move(from, to, None), Ok(()));
    }
    assert_eq!(g.check_game_end(), Some(GameOutcome::BlackWins));
    assert_eq!(g.to_pgn(), "f2f3 e7e5 g2g4 d8h4");
}

#[test]
fn illegal_move_changes_nothing() {
    let mut g = GameState::new();
    assert_eq!(g.try_apply_move("e2", "e5", None), Err(GameError::IllegalMove));
    assert_eq!(g.fen(), START_FEN);
    assert!(g.move_history.is_empty());
}

#[test]
fn replay_rebuilds_the_same_position() {
    let moves: Vec<String> = ["e2e4", "e7e5", "g1f3"].iter().map(|s| s.to_string()).collect();
    let g = GameState::from_move_history(&moves).unwrap();
    let mut h = GameState::new();
    for m in &moves {
        h.apply_uci_str(m).unwrap();
    }
    assert_eq!(g.fen(), h.fen());
    assert_eq!(g.side_to_move(), Some(Side::Black));
    let bad: Vec<String> = ["e2e4", "e2e4"].iter().map(|s| s.to_string()).collect();
    assert!(matches!(GameState::from_move_history(&bad), Err(GameError::IllegalMove)));
}

#[test]
fn threefold_repetition_is_a_draw() {
    let mut g = GameState::new();
    for m in ["g1f3", "g8f6", "f3g1", "f6g8", "g1f3", "g8f6", "f3g1", "f6g8"] {
        g.apply_uci_str(m).unwrap();
    }
    assert_eq!(g.check_game_end(), Some(GameOutcome::Draw));
}

#[test]
fn best_move_placeholder_is_legal() {
    let g = GameState::new();
    let mv = g.best_move_placeholder().unwrap();
    let mut h = GameState::new();
    assert!(h.apply_uci_str(&mv).is_ok());
}

#[test]
fn moves_only_on_your_turn() {
    let mut g = GameState::new();
    assert_eq!(play_move(&mut g, false, "e7", "e5", None), MoveOutcome::NotYourTurn);
    assert_eq!(g.fen(), START_FEN);
    assert_eq!(play_move(&mut g, true, "e2", "e5", None), MoveOutcome::Illegal);
    assert_eq!(play_move(&mut g, true, "e2", "e4", None), MoveOutcome::Played { ended: None });
    assert!(is_my_turn(Some(Side::Black), false));
    assert!(!is_my_turn(None, true));
}

#[test]
fn resign_and_end_reasons() {
    assert_eq!(resign_outcome(true), GameOutcome::BlackWins);
    assert_eq!(resign_outcome(false), GameOutcome::WhiteWins);
    assert_eq!(end_reason(GameOutcome::Draw), "agreement");
    assert_eq!(end_reason(GameOutcome::WhiteWins), "checkmate");
}

#[test]
fn seats_of_players_only() {
    assert_eq!(resume_seat("w", "b", "w"), Some(true));
    assert_eq!(resume_seat("w", "b", "b"), Some(false));
    assert_eq!(resume_seat("w", "b", "x"), None);
    assert_eq!(viewer_seat("w", "b", "x"), Err(GameError::Unauthorized));
    assert_eq!(queue_rating(None), 1200);
}

#[test]
fn hint_costs_and_limits() {
    assert_eq!(hint_cost(1), 1);
    assert_eq!(hint_cost(2), 2);
    assert_eq!(hint_cost(3), 0);
    let m = HintMatch {
        match_type: "casual".into(),
        player_white_id: "w".into(),
        player_black_id: "b".into(),
        status: "in_progress".into(),
    };
    assert_eq!(hint_eligibility(&m, "w", 0), Ok(1));
    assert_eq!(hint_eligibility(&m, "b", 1), Ok(2));
    assert_eq!(hint_eligibility(&m, "w", 2), Err(GameError::HintLimitReached));
    assert_eq!(hint_eligibility(&m, "x", 0), Err(GameError::Unauthorized));
    let ranked = HintMatch { match_type: "ranked".into(), ..m };
    assert_eq!(hint_eligibility(&ranked, "w", 0), Err(GameError::HintNotAllowedInRanked));
    let ended = HintMatch { status: "completed".into(), match_type: "casual".into(), ..ranked };
    assert_eq!(hint_eligibility(&ended, "w", 0), Err(GameError::MatchAlreadyEnded));
}

#[test]
fn hint_payment() {
    assert_eq!(hint_charge(false, 5, 2), Ok(HintCharge { ledger_amount: -2, coins_spent: 2 }));
    assert_eq!(hint_charge(false, 1, 2), Err(GameError::InsufficientCoinsForHint));
    assert_eq!(hint_charge(true, 0, 2), Ok(HintCharge { ledger_amount: 0, coins_spent: 0 }));
    assert_eq!(hint_reference("m1", 2), "hint:m1:2");
}

#[test]
fn invites() {
    assert_eq!(invite_target_check("a", None), Err(GameError::ReceiverNotFound));
    assert_eq!(invite_target_check("a", Some("a")), Err(GameError::CannotInviteSelf));
    assert_eq!(invite_target_check("a", Some("b")), Ok(()));
    let row = InviteRow { sender_id: "a".into(), receiver_id: "b".into(), status: "pending".into() };
    assert_eq!(invite_verdict(&row, "b", Some(1000)), InviteVerdict::Accept);
    assert_eq!(invite_verdict(&row, "b", Some(24 * 3600 * 1000)), InviteVerdict::Accept);
    assert_eq!(invite_verdict(&row, "b", Some(24 * 3600 * 1000 + 1)), InviteVerdict::Expired);
    assert_eq!(invite_verdict(&row, "c", Some(0)), InviteVerdict::NotFound);
    assert_eq!(invite_verdict(&row, "b", None), InviteVerdict::Unreadable);
    assert_eq!(verdict_error(InviteVerdict::Expired), Some(GameError::InviteNotFound));
    assert_eq!(verdict_error(InviteVerdict::Unreadable), Some(GameError::Internal));
    assert_eq!(assign_colors("a".into(), "b".into(), false), ("b".to_string(), "a".to_string()));
    assert_eq!(decline_result(0), Err(GameError::InviteNotFound));
    assert_eq!(invite_answer("accept"), Ok(true));
    assert_eq!(invite_answer("decline"), Ok(false));
    assert_eq!(invite_answer("maybe"), Err(GameError::InviteNotFound));
}

#[test]
fn ratings_only_change_in_ranked_with_floor() {
    assert!(is_ranked("ranked"));
    assert!(!is_ranked("casual"));
    assert_eq!(ratings_after(false, 1500, 1400, 1516, 1384), (1500, 1400));
    assert_eq!(ratings_after(true, 110, 1400, 90, 1410), (RATING_FLOOR, 1410));
    let c = rating_change(true, 1500, 1500, 1516, 1484);
    assert_eq!((c.white_delta, c.black_delta), (16, -16));
    assert!(!should_write_ratings(0, true));
    assert!(should_write_ratings(1, true));
    assert!(!should_write_ratings(1, false));
    assert_eq!(result_label(GameOutcome::BlackWins), "black_win");
    assert_eq!(score_halves(GameOutcome::Draw, true) + score_halves(GameOutcome::Draw, false), 2);
}

fn entry(id: &str, rating: i64, waited: u64) -> QueueEntry {
    QueueEntry { user_id: id.to_string(), rating, waited_secs: waited, connected: true }
}

#[test]
fn matchmaking_bands_and_pairing() {
    assert_eq!(current_band(0), 200);
    assert_eq!(current_band(4), 300);
    assert!(can_pair(&entry("a", 1200, 0), &entry("b", 1400, 0), true));
    assert!(!can_pair(&entry("a", 1200, 0), &entry("b", 1401, 0), true));
    assert!(can_pair(&entry("a", 1200, 0), &entry("b", 2400, 0), false));
    assert!(!can_pair(&entry("a", 1200, 0), &entry("a", 1200, 0), false));
    let mut q = vec![entry("a", 1200, 0)];
    let opp = join(&mut q, entry("b", 1300, 0), true);
    assert_eq!(opp.map(|e| e.user_id), Some("a".to_string()));
    assert!(q.is_empty());
    let mut q2 = vec![entry("a", 1200, 0), entry("b", 2000, 0)];
    assert!(sweep(&mut q2, true).is_empty());
    for e in q2.iter_mut() {
        e.waited_secs = 40;
    }
    let pairs = sweep(&mut q2, true);
    assert_eq!(pairs.len(), 1);
    assert!(q2.is_empty());
    let mut q3 = vec![entry("a", 1, 0), entry("b", 1, 0), entry("a", 1, 0)];
    leave(&mut q3, "a");
    assert_eq!(q3.len(), 1);
    assert_eq!(q3[0].user_id, "b");
}

#[test]
fn clock_ticks_and_flags() {
    let mut c = MatchClock::new();
    assert_eq!(c.remaining_ms(), (600000, 600000));
    assert_eq!(c.tick_clock_for_side(true, 1000), (false, 1000));
    assert_eq!(c.remaining_ms(), (599000, 600000));
    assert_eq!(c.tick_clock_for_side(false, 700000), (true, 700000));
    assert_eq!(c.remaining_ms().1, 0);
}

#[test]
fn fast_move_streak_is_an_anomaly_after_the_opening() {
    let mut c = MatchClock::new();
    let mut last = false;
    for i in 0..12 {
        last = c.record_think_time(i % 2 == 0, 10);
    }
    assert!(last);
    let mut slow = MatchClock::new();
    let mut any = false;
    for i in 0..12 {
        any |= slow.record_think_time(i % 2 == 0, 500);
    }
    assert!(!any);
}

#[test]
fn disconnect_grace_and_reconnect() {
    let mut t = DisconnectTracker::new();
    let timer = t.on_disconnect(true).unwrap();
    assert_eq!(t.expire(timer), Some(GameOutcome::BlackWins));
    let mut t2 = DisconnectTracker::new();
    let timer2 = t2.on_disconnect(false).unwrap();
    t2.on_reconnect(false);
    assert_eq!(t2.expire(timer2), None);
}
