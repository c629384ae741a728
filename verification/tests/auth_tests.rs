use genius_clan::auth::errors::AuthError;
use genius_clan::auth::flow::{
    approval_decision, approval_status_label, device_labels, login_next, next_resend_wait,
    register_status, reset_password_check, role_or_user, should_announce_new_device, LoginNext,
    ResetTokenState,
};
use genius_clan::auth::github_sessions::{new_session, reindex_session, session_for_hash};
use genius_clan::auth::github_users::{
    find_user_id_by_identifier, index_user, new_user, username_or_email_taken,
};
use genius_clan::auth::github_wallet::{claimed_today, empty_daily_file, record_claim, sync_balance};
use genius_clan::auth::jwt::new_access_claims;
use genius_clan::auth::login::{
    check_credentials, check_lockout, credential_result, login_captcha_step,
    records_failed_attempt, CredentialVerdict, LoginCaptchaStep, LoginRequest, UserAuthRow,
};
use genius_clan::auth::password::{hash_password, verify_password};
use genius_clan::auth::register::{
    availability_check, register_response, resend_backoff_seconds, resend_count_from_tokens,
    resend_decision, single_use_token_check,
};
use genius_clan::auth::register_intent::{
    consume_check, intent_precheck, intent_response, normalize_intent_email, sent_outcome,
    IntentOutcome,
};
use genius_clan::auth::session::{
    determine_device_case, is_session_online, refresh_error, refresh_verdict, revoke_result,
    rotate_refresh_hashes, DeviceCase, RefreshVerdict, SessionRow,
};
use genius_clan::auth::tokens::{generate_opaque_refresh_token, hash_refresh_token, hex_encode};
use genius_clan::auth::two_fa::{
    approval_response, enable_2fa_secret, pending_check, stale_approval_should_deny, submit_gate,
    two_fa_code_matches, wrong_code_error, Enable2FaRequest, PendingCheck,
};
use genius_clan::auth::validation::{validate_email, validate_password, validate_registration, validate_username};
use genius_clan::db::keyed::KeyedList;

#[test]
fn username_rules() {
    assert_eq!(validate_username("magnus_99"), Ok(()));
    assert_eq!(validate_username("ab"), Err(AuthError::UsernameFormatInvalid));
    assert_eq!(validate_username("has space"), Err(AuthError::UsernameFormatInvalid));
    assert_eq!(validate_username("a23456789012345678901"), Err(AuthError::UsernameFormatInvalid));
    assert_eq!(validate_username("Admin"), Err(AuthError::ReservedUsername));
    assert_eq!(validate_username("support_123"), Err(AuthError::ReservedUsername));
    assert_eq!(validate_username("chess"), Err(AuthError::ReservedUsername));
    assert_eq!(validate_username("chessfan"), Ok(()));
    assert_eq!(validate_username("support_team"), Err(AuthError::ReservedUsername));
    assert_eq!(validate_username("admin123"), Err(AuthError::ReservedUsername));
    assert_eq!(validate_username("Root_Beer"), Err(AuthError::ReservedUsername));
    assert_eq!(validate_username("root_"), Err(AuthError::ReservedUsername));
    assert_eq!(validate_username("rootbeer"), Ok(()));
    assert_eq!(validate_username("supporter"), Ok(()));
    assert_eq!(validate_username("ownership"), Ok(()));
    assert_eq!(validate_username("systematic"), Ok(()));
    assert_eq!(validate_username("admin1x"), Ok(()));
    assert_eq!(validate_username("the_admin"), Ok(()));
}

#[test]
fn email_rules() {
    assert_eq!(validate_email("player@example.com"), Ok(()));
    assert_eq!(validate_email("a.b+c@sub.example.co"), Ok(()));
    assert_eq!(validate_email("no-at-sign.com"), Err(AuthError::EmailFormatInvalid));
    assert_eq!(validate_email("x@localhost"), Err(AuthError::EmailFormatInvalid));
    assert_eq!(validate_email("x@-bad.com"), Err(AuthError::EmailFormatInvalid));
}

#[test]
fn password_rules() {
    assert_eq!(validate_password("Str0ngPass"), Ok(()));
    assert_eq!(validate_password("Sh0rt"), Err(AuthError::PasswordTooWeak));
    assert_eq!(validate_password("alllower1"), Err(AuthError::PasswordTooWeak));
    assert_eq!(validate_password("Password1"), Err(AuthError::PasswordTooWeak));
    assert_eq!(validate_password("Abcdefg1"), Ok(()));
    assert_eq!(validate_password("abcdefg1"), Err(AuthError::PasswordTooWeak));
    // seven characters, nine bytes
    assert_eq!(validate_password("Ab1cd\u{e9}\u{e9}"), Err(AuthError::PasswordTooWeak));
    assert_eq!(validate_password("Ab1cd\u{e9}\u{e9}x"), Ok(()));
    assert_eq!(validate_registration("ab", "bad", "x"), Err(AuthError::UsernameFormatInvalid));
    assert_eq!(validate_registration("magnus", "bad", "x"), Err(AuthError::EmailFormatInvalid));
}

#[test]
fn argon2_hash_roundtrip() {
    let h = hash_password("Correct-Horse-1").unwrap();
    assert!(h.starts_with("$argon2id$"));
    assert!(verify_password("Correct-Horse-1", &h));
    assert!(!verify_password("wrong", &h));
    assert!(!verify_password("x", "not a hash"));
    assert!(hash_password("").is_ok());
}

#[test]
fn refresh_token_digest_is_hex_sha256() {
    assert_eq!(hash_refresh_token(""), "e3b0c44298fc1c149afbf4c8996fb92427ae41e4649b934ca495991b7852b855");
    assert_eq!(hash_refresh_token("abc"), "ba7816bf8f01cfea414140de5dae2223b00361a396177a9cb410ff61f20015ad");
    assert_eq!(hex_encode(&[0x00, 0xab, 0xff]), "00abff");
    let t = generate_opaque_refresh_token();
    assert_eq!(t.len(), 64);
    assert!(t.chars().all(|c| c.is_ascii_hexdigit()));
    assert_ne!(t, generate_opaque_refresh_token());
}

#[test]
fn lockout_and_captcha_step() {
    assert_eq!(check_lockout(4), Ok(()));
    assert_eq!(check_lockout(5), Err(AuthError::AccountLocked { retry_after_secs: 900 }));
    let mut req = LoginRequest {
        identifier: "a".into(),
        password: "p".into(),
        device_fingerprint: None,
        ip_address: None,
        browser: None,
        os: None,
        captcha_challenge_id: None,
        captcha_answer: None,
    };
    assert_eq!(login_captcha_step(2, &req), LoginCaptchaStep::NotRequired);
    assert_eq!(login_captcha_step(3, &req), LoginCaptchaStep::IssueChallenge);
    req.captcha_challenge_id = Some("c".into());
    req.captcha_answer = Some("".into());
    assert_eq!(login_captcha_step(3, &req), LoginCaptchaStep::IssueChallenge);
    req.captcha_answer = Some("d4".into());
    assert_eq!(login_captcha_step(3, &req), LoginCaptchaStep::CheckAnswer);
}

#[test]
fn credential_checks_in_order() {
    let hash = hash_password("Str0ngPass").unwrap();
    let row = |status: &str, verified: i64| UserAuthRow {
        id: "u".into(),
        password_hash: hash.clone(),
        email_verified: verified,
        two_fa_enabled: 0,
        role: "user".into(),
        status: status.into(),
    };
    assert_eq!(check_credentials(None, "x"), CredentialVerdict::UnknownIdentifier);
    assert_eq!(check_credentials(Some(&row("banned", 1)), "Str0ngPass"), CredentialVerdict::AccountBlocked);
    assert_eq!(check_credentials(Some(&row("active", 1)), "nope"), CredentialVerdict::WrongPassword);
    assert_eq!(check_credentials(Some(&row("active", 0)), "Str0ngPass"), CredentialVerdict::EmailNotVerified);
    assert_eq!(check_credentials(Some(&row("active", 1)), "Str0ngPass"), CredentialVerdict::Accepted);
    assert_eq!(credential_result(CredentialVerdict::UnknownIdentifier), Err(AuthError::InvalidCredentials));
    assert_eq!(credential_result(CredentialVerdict::WrongPassword), Err(AuthError::InvalidCredentials));
    assert!(records_failed_attempt(CredentialVerdict::WrongPassword));
    assert!(!records_failed_attempt(CredentialVerdict::AccountBlocked));
}

fn session(current: &str, previous: Option<&str>, active: i64) -> SessionRow {
    SessionRow {
        id: "s1".into(),
        user_id: "u1".into(),
        refresh_token_hash: current.into(),
        previous_refresh_token_hash: previous.map(|s| s.to_string()),
        is_active: active,
        last_seen_at: None,
        expires_at: "2030-01-01T00:00:00Z".into(),
    }
}

#[test]
fn refresh_rotation_and_reuse() {
    let mut s = session("h1", None, 1);
    assert_eq!(refresh_verdict(&s, "h1", Some(false)), RefreshVerdict::Rotate);
    rotate_refresh_hashes(&mut s, "h2".into());
    assert_eq!(s.refresh_token_hash, "h2");
    assert_eq!(s.previous_refresh_token_hash.as_deref(), Some("h1"));
    assert_eq!(refresh_verdict(&s, "h1", Some(false)), RefreshVerdict::ReuseDetected { invalidate: true });
    assert_eq!(refresh_verdict(&session("h2", None, 0), "h2", Some(false)), RefreshVerdict::ReuseDetected { invalidate: false });
    assert_eq!(refresh_verdict(&s, "h2", Some(true)), RefreshVerdict::Expired);
    assert_eq!(refresh_error(RefreshVerdict::ReuseDetected { invalidate: true }), Err(AuthError::RefreshTokenReuseDetected));
    assert_eq!(refresh_error(RefreshVerdict::Expired), Err(AuthError::Unauthorized));
    assert_eq!(revoke_result(0), Err(AuthError::Unauthorized));
}

#[test]
fn device_cases() {
    assert!(is_session_online(Some(119)));
    assert!(!is_session_online(Some(120)));
    assert!(!is_session_online(None));
    assert_eq!(determine_device_case(None), DeviceCase::NoActiveSession);
    assert_eq!(determine_device_case(Some(true)), DeviceCase::ActiveAndOnline);
    assert_eq!(login_next(0, DeviceCase::ActiveAndOnline), LoginNext::IssueTokens);
    assert_eq!(login_next(1, DeviceCase::ActiveAndOnline), LoginNext::AwaitCode { device_approval: true });
    assert_eq!(login_next(1, DeviceCase::ActiveButOffline), LoginNext::AwaitCode { device_approval: false });
}

#[test]
fn two_fa_enable_and_codes() {
    let hash = hash_password("Str0ngPass").unwrap();
    let req = |c1: &str, c2: &str, pw: &str| Enable2FaRequest {
        current_password: pw.into(),
        new_code: c1.into(),
        confirm_code: c2.into(),
    };
    assert_eq!(enable_2fa_secret(&req("123456", "123457", "Str0ngPass"), &hash), Err(AuthError::ReAuthRequired));
    assert_eq!(enable_2fa_secret(&req("12345a", "12345a", "Str0ngPass"), &hash), Err(AuthError::ReAuthRequired));
    assert_eq!(enable_2fa_secret(&req("123456", "123456", "bad"), &hash), Err(AuthError::ReAuthRequired));
    let secret = enable_2fa_secret(&req("123456", "123456", "Str0ngPass"), &hash).unwrap();
    assert_eq!(secret, hash_refresh_token("123456"));
    assert!(two_fa_code_matches("123456", &Some(secret.clone())));
    assert!(!two_fa_code_matches("654321", &Some(secret)));
    assert_eq!(wrong_code_error(0), AuthError::TwoFaCodeIncorrect);
    assert_eq!(wrong_code_error(4), AuthError::TwoFaLockout { retry_after_secs: 900 });
}

#[test]
fn pending_approvals() {
    assert_eq!(pending_check("pending", Some(true)), PendingCheck::ExpireNow);
    assert_eq!(pending_check("approved", Some(true)), PendingCheck::Usable);
    assert_eq!(pending_check("pending", None), PendingCheck::Unreadable);
    assert_eq!(approval_response("pending", true), Ok("approved".to_string()));
    assert_eq!(approval_response("completed", true), Err(AuthError::ResetTokenInvalidOrExpired));
    assert!(stale_approval_should_deny("pending", 1, 121));
    assert!(!stale_approval_should_deny("pending", 1, 120));
    assert_eq!(submit_gate("completed", 0), Err(AuthError::LoginRequestDenied));
    assert_eq!(submit_gate("pending", 1), Err(AuthError::LoginRequestDenied));
    assert_eq!(submit_gate("approved", 1), Ok(()));
    assert_eq!(approval_decision("approve"), Ok(true));
    assert_eq!(approval_decision("deny"), Ok(false));
    assert_eq!(approval_decision("later"), Err(AuthError::Unauthorized));
    assert_eq!(approval_status_label(false), "denied");
}

#[test]
fn resend_schedule() {
    assert_eq!(resend_backoff_seconds(0), Some(30));
    assert_eq!(resend_backoff_seconds(1), Some(300));
    assert_eq!(resend_backoff_seconds(2), Some(18000));
    assert_eq!(resend_backoff_seconds(3), Some(86400));
    assert_eq!(resend_backoff_seconds(4), None);
    assert_eq!(resend_count_from_tokens(1), 0);
    assert_eq!(resend_count_from_tokens(0), u32::MAX);
    assert_eq!(resend_count_from_tokens(3), 2);
    assert_eq!(resend_decision(1, 0, None), Err(AuthError::AlreadyVerified));
    assert_eq!(resend_decision(0, 4, None), Err(AuthError::ResendLimitExceeded));
    assert_eq!(resend_decision(0, 1, Some(100)), Err(AuthError::ResendTooSoon { retry_after_secs: 200 }));
    assert_eq!(resend_decision(0, 1, Some(300)), Ok(()));
    assert_eq!(next_resend_wait(None), 0);
}

#[test]
fn single_use_tokens_and_resets() {
    assert_eq!(single_use_token_check(true, Some(false), AuthError::ResetTokenInvalidOrExpired), Err(AuthError::ResetTokenInvalidOrExpired));
    assert_eq!(single_use_token_check(false, None, AuthError::Unauthorized), Err(AuthError::Internal));
    assert_eq!(single_use_token_check(false, Some(false), AuthError::Unauthorized), Ok(()));
    assert_eq!(reset_password_check("weak", Some(ResetTokenState { used: 0, expired: Some(false) })), Err(AuthError::PasswordTooWeak));
    assert_eq!(reset_password_check("Str0ngPass", None), Err(AuthError::ResetTokenInvalidOrExpired));
    assert_eq!(reset_password_check("Str0ngPass", Some(ResetTokenState { used: 1, expired: Some(false) })), Err(AuthError::ResetTokenInvalidOrExpired));
    assert_eq!(reset_password_check("Str0ngPass", Some(ResetTokenState { used: 0, expired: Some(false) })), Ok(()));
    assert_eq!(availability_check(true, true), Err(AuthError::UsernameTaken));
    assert_eq!(availability_check(false, true), Err(AuthError::EmailTaken));
    let r = register_response();
    assert_eq!(r.state, "verify_email");
}

#[test]
fn signup_intents_never_reveal_registration() {
    assert_eq!(normalize_intent_email("  Player@Example.COM "), Ok("player@example.com".to_string()));
    assert_eq!(normalize_intent_email("nope"), Err(AuthError::EmailFormatInvalid));
    let a = intent_response(IntentOutcome::AlreadyRegistered);
    let s = intent_response(IntentOutcome::Sent);
    assert_eq!(a.status, s.status);
    assert!(!a.email_sent && s.email_sent);
    assert_eq!(intent_precheck(true, true), Some(IntentOutcome::AlreadyRegistered));
    assert_eq!(intent_precheck(false, false), Some(IntentOutcome::StoreUnavailable));
    assert_eq!(intent_precheck(true, false), None);
    assert_eq!(sent_outcome(false), IntentOutcome::EmailFailed);
    assert_eq!(consume_check(false, false, Some(false)), Err(AuthError::Unauthorized));
    assert_eq!(consume_check(true, true, Some(false)), Err(AuthError::Unauthorized));
    assert_eq!(consume_check(true, false, Some(false)), Ok(()));
    assert_eq!(register_status(true), "verify_email_sent");
}

#[test]
fn access_claims_live_five_minutes() {
    let c = new_access_claims("u1", "user", "s1", 1_000);
    assert_eq!((c.sub.as_str(), c.role.as_str(), c.session_id.as_str()), ("u1", "user", "s1"));
    assert_eq!((c.iat, c.exp), (1_000, 1_300));
}

#[test]
fn durable_users_and_indexes() {
    let u = new_user("id1".into(), "MagNus".into(), "m@x.io".into(), "h".into(), "t0".into());
    assert_eq!(u.username_lower, "magnus");
    assert_eq!((u.rating, u.coin_balance, u.email_verified), (1200, 0, true));
    assert_eq!((u.role.as_str(), u.status.as_str()), ("user", "active"));
    let mut by_email = KeyedList::new();
    let mut by_name = KeyedList::new();
    index_user(&mut by_email, &mut by_name, &u);
    assert_eq!(find_user_id_by_identifier(Some(&by_email), Some(&by_name), "m@x.io"), Some("id1".to_string()));
    assert_eq!(find_user_id_by_identifier(None, Some(&by_name), "magnus"), Some("id1".to_string()));
    assert_eq!(find_user_id_by_identifier(Some(&by_email), None, "magnus"), None);
    assert_eq!(username_or_email_taken(Some(&by_name), None, "magnus", "m@x.io"), (true, false));
}

#[test]
fn session_hash_index_tracks_rotation() {
    let mut s = new_session("s1".into(), "u1", "h1", Some("fp"), "t0".into(), "t3".into());
    assert!(s.is_active);
    let mut index = KeyedList::new();
    index.insert("stale".to_string(), "s1".to_string());
    index.insert("other".to_string(), "s2".to_string());
    reindex_session(&mut index, &s);
    assert_eq!(session_for_hash(&index, "h1"), Some("s1".to_string()));
    assert_eq!(session_for_hash(&index, "stale"), None);
    assert_eq!(session_for_hash(&index, "other"), Some("s2".to_string()));
    s.previous_refresh_token_hash = Some("h1".into());
    s.refresh_token_hash = "h2".into();
    reindex_session(&mut index, &s);
    assert_eq!(session_for_hash(&index, "h2"), Some("s1".to_string()));
    assert_eq!(session_for_hash(&index, "h1"), Some("s1".to_string()));
}

#[test]
fn daily_claims_and_balance() {
    let mut f = empty_daily_file();
    assert!(!claimed_today(&f, "2024-05-01"));
    record_claim(&mut f, "2024-05-01", 2, 20, "t".into());
    assert!(claimed_today(&f, "2024-05-01"));
    assert_eq!(f.current_streak_day, 2);
    assert_eq!(f.last_claim_date.as_deref(), Some("2024-05-01"));
    let mut u = new_user("id1".into(), "a_b".into(), "e@x.io".into(), "h".into(), "t0".into());
    sync_balance(&mut u, 55, "t1".into());
    assert_eq!((u.coin_balance, u.updated_at.as_str()), (55, "t1"));
}

#[test]
fn announcement_helpers() {
    assert!(should_announce_new_device(true, false));
    assert!(!should_announce_new_device(false, false));
    assert_eq!(device_labels(None, Some("Linux")), ("an unknown browser".to_string(), "Linux".to_string()));
    assert_eq!(role_or_user(None), "user");
}

#[test]
fn auth_error_replies() {
    let r = AuthError::AccountLocked { retry_after_secs: 900 }.reply();
    assert_eq!(r.status, 429);
    assert_eq!(r.code, "account_locked");
    assert_eq!(r.message, "Too many failed attempts. Try again in 900 seconds.");
    let r2 = AuthError::InvalidCredentials.reply();
    assert_eq!((r2.status, r2.message.as_str()), (401, "Invalid username/email or password."));
}
