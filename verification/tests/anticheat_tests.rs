use genius_clan::anticheat::ad_reward::{ad_reward_decision, AdRewardDecision};
use genius_clan::anticheat::ban_escalation::{
    count_consecutive_high_cycles, escalation_action, EscalationAction,
};
use genius_clan::anticheat::captcha::{
    bot_signals_present, captcha_passes, challenge_for_kind, generate_challenge,
    should_trigger_captcha, BotSignalReport, CaptchaKind, StoredCaptcha,
};
use genius_clan::anticheat::device_fingerprint::{extra_device_account_events, referral_is_suspicious};
use genius_clan::anticheat::errors::AntiCheatError;
use genius_clan::anticheat::hash_integrity::{verify_chain, LedgerLink};
use genius_clan::anticheat::ip_reputation::ip_context_is_elevated;
use genius_clan::anticheat::match_integrity::{
    cheat_confirmed_outcome, respond_to_signal, MidMatchSignal, SignalResponse,
};
use genius_clan::anticheat::monitor::{consent_key, identifier_prefix};
use genius_clan::anticheat::risk_score::{
    adjusted_risk_score, recalculated_score, severity_for, tier_for_score, RiskTier,
};
use genius_clan::game::engine::GameOutcome;

#[test]
fn severities_of_known_and_unknown_events() {
    assert_eq!(severity_for("wallet_mismatch"), 50);
    assert_eq!(severity_for("modified_client_payload_detected"), 100);
    assert_eq!(severity_for("ledger_row_inconsistent"), 100);
    assert_eq!(severity_for("login_failed"), 2);
    assert_eq!(severity_for("2fa_retry"), 3);
    assert_eq!(severity_for("something_new"), 5);
}

#[test]
fn tiers_by_score() {
    assert_eq!(tier_for_score(0), RiskTier::Safe);
    assert_eq!(tier_for_score(30), RiskTier::Safe);
    assert_eq!(tier_for_score(31), RiskTier::Observe);
    assert_eq!(tier_for_score(61), RiskTier::Elevated);
    assert_eq!(tier_for_score(80), RiskTier::Elevated);
    assert_eq!(tier_for_score(81), RiskTier::High);
    assert_eq!(tier_for_score(-1), RiskTier::High);
}

#[test]
fn score_decays_five_per_clean_week_and_is_clamped() {
    assert_eq!(recalculated_score(70, Some(2)), (60, 10));
    assert_eq!(recalculated_score(250, None), (100, 0));
    assert_eq!(recalculated_score(10, Some(5)), (0, 25));
    assert_eq!(recalculated_score(40, Some(-3)), (40, 0));
    assert_eq!(adjusted_risk_score(95, 20), 100);
    assert_eq!(adjusted_risk_score(5, -20), 0);
    assert_eq!(adjusted_risk_score(i64::MAX, i64::MAX), 100);
}

#[test]
fn ban_needs_three_high_cycles() {
    assert_eq!(count_consecutive_high_cycles(&vec![Some(90), Some(85), Some(82)]), 3);
    assert_eq!(count_consecutive_high_cycles(&vec![Some(90), Some(50), Some(90)]), 1);
    assert_eq!(count_consecutive_high_cycles(&vec![None, Some(90)]), 0);
    assert_eq!(escalation_action(90, 3), EscalationAction::PermanentBan);
    assert_eq!(escalation_action(90, 2), EscalationAction::PendingReview { consecutive_high: 2 });
    assert_eq!(escalation_action(70, 3), EscalationAction::RecordOnly);
}

#[test]
fn captcha_triggers_and_answers() {
    assert!(should_trigger_captcha(3, false, None));
    assert!(!should_trigger_captcha(2, false, None));
    assert!(should_trigger_captcha(0, true, None));
    assert!(should_trigger_captcha(0, false, Some(65)));
    assert!(!should_trigger_captcha(0, false, Some(60)));
    assert!(bot_signals_present(&BotSignalReport { honeypot_filled: false, mouse_movement_absent: true, request_too_fast: false }));
    assert!(!bot_signals_present(&BotSignalReport { honeypot_filled: false, mouse_movement_absent: false, request_too_fast: false }));
    let stored = Some(StoredCaptcha { answer: "black".into(), expired: false });
    assert!(captcha_passes(&stored, "  Black "));
    assert!(!captcha_passes(&stored, "white"));
    assert!(!captcha_passes(&Some(StoredCaptcha { answer: "d4".into(), expired: true }), "d4"));
    assert!(!captcha_passes(&None, "d4"));
}

#[test]
fn captcha_challenges_come_with_their_answers() {
    let (c, answer) = challenge_for_kind(CaptchaKind::TapTheKnight, "id1".into());
    assert_eq!(c.kind, "tap_the_knight");
    assert_eq!(c.board_fen, "8/8/3k4/8/3N4/8/3K4/8 w - - 0 1");
    assert_eq!(answer, "d4");
    let (g, a) = generate_challenge("id2".into());
    assert_eq!(g.challenge_id, "id2");
    assert!(["d4", "c3", "black"].contains(&a.as_str()));
}

#[test]
fn ad_reward_checks_in_order() {
    assert_eq!(ad_reward_decision(true, 0, None), AdRewardDecision::Duplicate);
    assert_eq!(ad_reward_decision(false, 10, None), AdRewardDecision::DailyCapExceeded);
    assert_eq!(ad_reward_decision(false, 3, Some(60_000)), AdRewardDecision::CooldownViolation);
    assert_eq!(ad_reward_decision(false, 3, Some(120_000)), AdRewardDecision::Credit);
    assert_eq!(ad_reward_decision(false, 0, None), AdRewardDecision::Credit);
}

#[test]
fn device_and_ip_signals() {
    assert_eq!(extra_device_account_events(5), 3);
    assert_eq!(extra_device_account_events(2), 0);
    assert!(referral_is_suspicious(1));
    assert!(!referral_is_suspicious(0));
    assert!(ip_context_is_elevated(6, 0));
    assert!(ip_context_is_elevated(0, 11));
    assert!(!ip_context_is_elevated(5, 10));
}

#[test]
fn mid_match_signals_need_two_to_pause() {
    let one = MidMatchSignal { engine_similarity_high: true, timing_anomaly: false, bot_tool_on_screen: false };
    assert_eq!(one.count_active(), 1);
    assert!(!one.crosses_pause_threshold());
    assert_eq!(respond_to_signal(&one), SignalResponse::LogIsolated { log_engine_similarity: true, log_timing: false });
    let two = MidMatchSignal { engine_similarity_high: true, timing_anomaly: true, bot_tool_on_screen: false };
    assert_eq!(respond_to_signal(&two), SignalResponse::PauseAndReverify);
    assert_eq!(cheat_confirmed_outcome(true), GameOutcome::BlackWins);
}

fn link(prev: Option<&str>, hash: Option<&str>, recomputed: &str) -> LedgerLink {
    LedgerLink {
        prev_hash: prev.map(|s| s.to_string()),
        row_hash: hash.map(|s| s.to_string()),
        recomputed_hash: recomputed.to_string(),
    }
}

#[test]
fn ledger_chain_walk_detects_tampering() {
    let good = vec![link(Some("genesis"), Some("h1"), "h1"), link(None, None, "x"), link(Some("h1"), Some("h2"), "h2")];
    assert!(verify_chain(&good));
    let edited = vec![link(Some("genesis"), Some("h1"), "h1"), link(Some("h1"), Some("h2"), "other")];
    assert!(!verify_chain(&edited));
    let reordered = vec![link(Some("h1"), Some("h2"), "h2"), link(Some("genesis"), Some("h1"), "h1")];
    assert!(!verify_chain(&reordered));
    assert!(verify_chain(&vec![]));
}

#[test]
fn log_prefix_and_consent_key() {
    assert_eq!(identifier_prefix("alice@example.com"), "ali");
    assert_eq!(identifier_prefix("al"), "al");
    assert_eq!(consent_key("u1"), "screen_scan_consent:u1");
}

#[test]
fn anticheat_error_replies() {
    let r = AntiCheatError::CaptchaIncorrect.reply();
    assert_eq!((r.status, r.code.as_str()), (400, "captcha_incorrect"));
    assert_eq!(r.message, "That wasn't quite right — try again.");
    assert_eq!(AntiCheatError::RateLimited.reply().status, 429);
}
