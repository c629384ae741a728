use genius_clan::anticheat::captcha::{answer_captcha, StoredCaptcha};
use genius_clan::anticheat::risk_score::{score_from_events, ScoredEvent};
use genius_clan::auth::errors::AuthError;
use genius_clan::auth::register::redeem_token;
use genius_clan::auth::register_intent::{consume_check, consume_record, RegisterIntentRecord};
use genius_clan::anticheat::risk_score::severity_for;
use genius_clan::auth::session::{refresh_step, SessionRow};
use genius_clan::auth::tokens::hash_refresh_token;
use genius_clan::auth::two_fa::{submit_code, PendingAttempt};
use genius_clan::game::matchmaking::{sweep, QueueEntry};

fn player(id: &str, rating: i64) -> QueueEntry {
    QueueEntry { user_id: id.to_string(), rating, waited_secs: 0, connected: true }
}

fn ids(q: &[QueueEntry]) -> Vec<String> {
    q.iter().map(|e| e.user_id.clone()).collect()
}

#[test]
fn sweep_pairs_with_first_later_partner() {
    let mut q = vec![player("a", 1000), player("b", 2000), player("c", 1100), player("d", 2050)];
    let pairs = sweep(&mut q, true);
    let names: Vec<(String, String)> = pairs.iter().map(|(x, y)| (x.user_id.clone(), y.user_id.clone())).collect();
    assert_eq!(names, vec![("a".to_string(), "c".to_string()), ("b".to_string(), "d".to_string())]);
    assert!(q.is_empty());
}

#[test]
fn sweep_keeps_unpaired_players_in_order() {
    let mut q = vec![player("x", 1000), player("y", 3000), player("z", 1150), player("w", 5000), player("v", 1160)];
    let pairs = sweep(&mut q, true);
    assert_eq!(pairs.len(), 1);
    assert_eq!((pairs[0].0.user_id.as_str(), pairs[0].1.user_id.as_str()), ("x", "z"));
    assert_eq!(ids(&q), vec!["y", "w", "v"]);
}

fn session(current: &str) -> SessionRow {
    SessionRow {
        id: "s1".to_string(),
        user_id: "u1".to_string(),
        refresh_token_hash: current.to_string(),
        previous_refresh_token_hash: None,
        is_active: 1,
        last_seen_at: None,
        expires_at: "2099-01-01T00:00:00+00:00".to_string(),
    }
}

#[test]
fn old_refresh_token_is_refused_after_rotation() {
    let mut s = session("h1");
    assert_eq!(refresh_step(&mut s, "h1", Some(false), "h2".to_string()), Ok(()));
    assert_eq!(s.refresh_token_hash, "h2");
    assert_eq!(s.previous_refresh_token_hash.as_deref(), Some("h1"));
    assert_eq!(refresh_step(&mut s, "h1", Some(false), "h3".to_string()), Err(AuthError::RefreshTokenReuseDetected));
    assert_eq!(s.is_active, 0);
    assert_eq!(refresh_step(&mut s, "h2", Some(false), "h4".to_string()), Err(AuthError::RefreshTokenReuseDetected));
    assert_eq!(s.refresh_token_hash, "h2");
}

#[test]
fn expired_session_is_deactivated_and_unreadable_expiry_changes_nothing() {
    let mut s = session("h1");
    assert_eq!(refresh_step(&mut s, "h1", None, "h2".to_string()), Err(AuthError::Internal));
    assert_eq!((s.is_active, s.refresh_token_hash.as_str()), (1, "h1"));
    assert_eq!(refresh_step(&mut s, "h1", Some(true), "h2".to_string()), Err(AuthError::Unauthorized));
    assert_eq!((s.is_active, s.refresh_token_hash.as_str()), (0, "h1"));
}

#[test]
fn emailed_token_redeems_once() {
    let mut used = false;
    assert_eq!(redeem_token(&mut used, Some(false), AuthError::ResetTokenInvalidOrExpired), Ok(()));
    assert!(used);
    assert_eq!(redeem_token(&mut used, Some(false), AuthError::ResetTokenInvalidOrExpired), Err(AuthError::ResetTokenInvalidOrExpired));
    let mut fresh = false;
    assert_eq!(redeem_token(&mut fresh, Some(true), AuthError::Unauthorized), Err(AuthError::Unauthorized));
    assert!(!fresh);
    assert_eq!(redeem_token(&mut fresh, None, AuthError::Unauthorized), Err(AuthError::Internal));
}

#[test]
fn captcha_answers_once() {
    let mut stored = Some(StoredCaptcha { answer: "c3".to_string(), expired: false });
    assert!(answer_captcha(&mut stored, " C3 "));
    assert!(stored.is_none());
    assert!(!answer_captcha(&mut stored, "c3"));
    let mut wrong = Some(StoredCaptcha { answer: "black".to_string(), expired: false });
    assert!(!answer_captcha(&mut wrong, "white"));
    assert!(wrong.is_none());
}

#[test]
fn two_fa_codes_lock_out_and_complete_once() {
    let secret = Some(hash_refresh_token("123456"));
    let mut p = PendingAttempt { approval_status: "pending".to_string(), requires_old_device_approval: 0, wrong_codes: 0 };
    for _ in 0..4 {
        assert_eq!(submit_code(&mut p, "000000", &secret), Err(AuthError::TwoFaCodeIncorrect));
    }
    assert_eq!(submit_code(&mut p, "000000", &secret), Err(AuthError::TwoFaLockout { retry_after_secs: 900 }));
    assert_eq!(p.wrong_codes, 5);
    assert_eq!(submit_code(&mut p, "123456", &secret), Ok(()));
    assert_eq!(p.approval_status, "completed");
    assert_eq!(submit_code(&mut p, "123456", &secret), Err(AuthError::LoginRequestDenied));
    let mut waiting = PendingAttempt { approval_status: "pending".to_string(), requires_old_device_approval: 1, wrong_codes: 0 };
    assert_eq!(submit_code(&mut waiting, "123456", &secret), Err(AuthError::LoginRequestDenied));
    assert_eq!(waiting.approval_status, "pending");
}

#[test]
fn score_is_clamped_window_sum_with_decay() {
    let ev = |severity: i64, age_secs: i64| ScoredEvent { severity, age_secs };
    // out-of-window event ignored; the newest event is fresh, so no decay
    assert_eq!(score_from_events(&vec![ev(10, 100), ev(5, 8_000_000), ev(20, 0)]).map(|r| r.0), Some(30));
    assert_eq!(score_from_events(&vec![ev(60, 10), ev(70, 0)]).map(|r| r.0), Some(100));
    // one clean week: minus five
    assert_eq!(score_from_events(&vec![ev(50, 604_800)]), Some((45, 5)));
    // two clean weeks on ten points: zero
    assert_eq!(score_from_events(&vec![ev(10, 2 * 604_800 + 5)]).map(|r| r.0), Some(0));
    assert_eq!(score_from_events(&vec![]), Some((0, 0)));
    assert_eq!(score_from_events(&vec![ev(i64::MAX, 0), ev(1, 0)]), None);
}

#[test]
fn signup_link_is_consumed_once() {
    let mut r = RegisterIntentRecord {
        email: "p@example.com".to_string(),
        token_hash: "h".to_string(),
        created_at: "2024-01-01T00:00:00+00:00".to_string(),
        expires_at: "2024-01-01T00:30:00+00:00".to_string(),
        used: false,
    };
    assert_eq!(consume_record(&mut r, Some(false)), Ok(()));
    assert!(r.used);
    assert_eq!(r.email, "p@example.com");
    assert_eq!(consume_record(&mut r, Some(false)), Err(AuthError::Unauthorized));
    assert_eq!(consume_check(false, false, Some(false)), Err(AuthError::Unauthorized));
}

#[test]
fn recorded_event_score_is_capped_window_sum() {
    let s = severity_for("engine_move_similarity_high");
    assert!(s > 0);
    let all = vec![
        ScoredEvent { severity: 3, age_secs: 86_400 },
        ScoredEvent { severity: 40, age_secs: 8_000_000 },
        ScoredEvent { severity: s, age_secs: 0 },
    ];
    assert_eq!(score_from_events(&all).map(|r| r.0), Some((3 + s).min(100)));
    let heavy = vec![ScoredEvent { severity: 90, age_secs: 60 }, ScoredEvent { severity: s, age_secs: 0 }];
    assert_eq!(score_from_events(&heavy).map(|r| r.0), Some(100));
}
