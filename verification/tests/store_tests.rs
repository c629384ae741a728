use genius_clan::config::{config_from_vars, ConfigError, ConfigVars};
use genius_clan::db::keyed::{remove_value, KeyedList};
use genius_clan::db::store::{
    bearer_header, decode_content, default_root, delete_outcome, encode_content, listing_ids,
    read_outcome, revision_for_overwrite, strip_json_suffix, with_root, write_outcome,
    ListingItem, StatusOutcome, StoreError,
};
use genius_clan::email::{
    from_header, password_reset_email, payment_confirmation_email, sender_address, smtp_mode,
    test_email, two_fa_status_email, verification_email, SmtpMode,
};
use genius_clan::reply::error_reply;

fn vars() -> ConfigVars {
    ConfigVars {
        database_url: None,
        jwt_secret: Some("s3cret".into()),
        jwt_access_ttl_min: None,
        jwt_refresh_ttl_days: None,
        smtp_host: None,
        smtp_user: None,
        smtp_pass: Some(" abcd efgh ".into()),
        smtp_port: Some("465".into()),
        frontend_base_url: None,
        jazzcash_api_key: None,
        easypaisa_api_key: Some("k".into()),
        googlepay_api_key: None,
        port: None,
        ip_allowlist: Some(" 1.2.3.4, ,10.0.0.0/8 ".into()),
    }
}

#[test]
fn config_defaults_and_parsing() {
    let c = config_from_vars(vars()).unwrap();
    assert_eq!(c.database_url, "sqlite::memory:");
    assert_eq!(c.jwt_secret, "s3cret");
    assert_eq!((c.jwt_access_ttl_minutes, c.jwt_refresh_ttl_days), (15, 30));
    assert_eq!(c.smtp_pass, "abcdefgh");
    assert_eq!(c.smtp_port, Some(465));
    assert_eq!(c.port, 8080);
    assert_eq!(c.frontend_base_url, "http://localhost:5173");
    assert_eq!(c.easypaisa_api_key.as_deref(), Some("k"));
    assert_eq!(c.ip_allowlist, vec!["1.2.3.4".to_string(), "10.0.0.0/8".to_string()]);
}

#[test]
fn config_number_errors() {
    let mut v = vars();
    v.port = Some("http".into());
    assert!(matches!(config_from_vars(v), Err(ConfigError::InvalidPort)));
    let mut v2 = vars();
    v2.jwt_access_ttl_min = Some("ten".into());
    v2.port = Some("x".into());
    assert!(matches!(config_from_vars(v2), Err(ConfigError::InvalidAccessTtl)));
    let mut v3 = vars();
    v3.smtp_port = Some("99999".into());
    assert_eq!(config_from_vars(v3).unwrap().smtp_port, None);
}

#[test]
fn keyed_list_behaves_like_a_map() {
    let mut m: KeyedList<String> = KeyedList::new();
    m.insert("a".into(), "1".into());
    m.insert("b".into(), "2".into());
    m.insert("a".into(), "3".into());
    assert_eq!(m.get("a").map(|s| s.as_str()), Some("3"));
    assert!(m.contains_key("b"));
    assert!(!m.contains_key("c"));
    remove_value(&mut m, "2");
    assert!(!m.contains_key("b"));
    let pairs = m.into_pairs();
    assert_eq!(pairs, vec![("a".to_string(), "3".to_string())]);
    let n = KeyedList::from_pairs(vec![("k".to_string(), 1), ("k".to_string(), 2)]);
    assert_eq!(n.get("k"), Some(&2));
}

#[test]
fn content_roundtrip_through_base64() {
    let data = b"{\"id\":\"u1\",\"rating\":1200}".to_vec();
    let text = encode_content(&data);
    assert_eq!(encode_content(b"hello"), "aGVsbG8=");
    assert_eq!(encode_content(b"Man"), "TWFu");
    assert_eq!(encode_content(b"Ma"), "TWE=");
    assert_eq!(encode_content(b"M"), "TQ==");
    assert_eq!(encode_content(b""), "");
    assert!(decode_content("TWF=").is_err());
    let wrapped = format!("{}\n{}\n", &text[..10], &text[10..]);
    assert_eq!(decode_content(&wrapped).unwrap(), data);
    assert!(matches!(decode_content("***"), Err(StoreError::Api(_))));
}

#[test]
fn document_locations() {
    let l = with_root("o".into(), "r".into(), "main".into(), "//chess/");
    assert_eq!(l.root, "chess");
    assert_eq!(l.doc_path("users", "u1"), "chess/users/u1.json");
    assert_eq!(l.collection_path("users"), "chess/users");
    assert_eq!(l.api_base(), "https://api.github.com/repos/o/r/contents");
    assert_eq!(l.read_url("chess/users/u1.json"), "https://api.github.com/repos/o/r/contents/chess/users/u1.json?ref=main");
    assert_eq!(l.write_url("p"), "https://api.github.com/repos/o/r/contents/p");
    assert_eq!(default_root(), "chess");
    assert_eq!(bearer_header("t"), "Bearer t");
}

#[test]
fn folder_listing_ids() {
    let items = vec![
        ListingItem { name: "u1.json".into(), kind: "file".into() },
        ListingItem { name: "notes.txt".into(), kind: "file".into() },
        ListingItem { name: "sub.json".into(), kind: "dir".into() },
        ListingItem { name: "x.json.json".into(), kind: "file".into() },
    ];
    assert_eq!(listing_ids(&items), vec!["u1".to_string(), "x".to_string()]);
    assert_eq!(strip_json_suffix("a.json"), "a");
    assert_eq!(strip_json_suffix("ajson"), "ajson");
}

#[test]
fn http_status_meanings() {
    assert_eq!(read_outcome(404), StatusOutcome::Missing);
    assert_eq!(read_outcome(500), StatusOutcome::Failed);
    assert_eq!(read_outcome(200), StatusOutcome::Proceed);
    assert_eq!(write_outcome(409), StatusOutcome::Conflict);
    assert_eq!(write_outcome(201), StatusOutcome::Proceed);
    assert_eq!(delete_outcome(404), Ok(()));
    assert_eq!(delete_outcome(403), Err(StatusOutcome::Failed));
    assert_eq!(revision_for_overwrite(Ok("sha1".into())).unwrap(), Some("sha1".to_string()));
    assert_eq!(revision_for_overwrite(Err(StoreError::NotFound)).unwrap(), None);
    assert!(revision_for_overwrite(Err(StoreError::Conflict)).is_err());
}

#[test]
fn email_templates() {
    let m = verification_email("tok", "https://app.example");
    assert_eq!(m.subject, "Verify your Chess King account");
    assert!(m.html.contains("href=\"https://app.example/verify-email?token=tok\""));
    assert!(m.html.contains("Or paste this link into your browser:<br/>https://app.example/verify-email?token=tok</td>"));
    assert!(m.html.starts_with("<!DOCTYPE html><html><head>"));
    assert!(m.html.contains("border-top:3px solid #D4AF37;"));
    let r = password_reset_email("t2", "B");
    assert!(r.html.contains("B/reset-password?token=t2"));
    let p = payment_confirmation_email(500, 55, "B");
    assert!(p.html.contains("Rs 500</strong>"));
    assert!(p.html.contains("+55 coins"));
    let off = two_fa_status_email(false, "B");
    assert_eq!(off.subject, "Two-step verification turned off");
    assert!(off.html.contains("#E74C3C"));
    let t = test_email();
    assert!(!t.html.contains("paste this link"));
    assert_eq!(from_header("a@b.c"), "Chess King <a@b.c>");
}

#[test]
fn smtp_setup() {
    assert_eq!(smtp_mode("", "u", "p", None), SmtpMode::LogOnly);
    assert_eq!(smtp_mode("smtp.x", "u", "p", None), SmtpMode::StartTls { port: 587 });
    assert_eq!(smtp_mode("smtp.x", "u", "p", Some(465)), SmtpMode::ImplicitTls { port: 465 });
    assert_eq!(sender_address(SmtpMode::LogOnly, "u"), "noreply@chessking.app");
    assert_eq!(sender_address(SmtpMode::StartTls { port: 587 }, "u@x"), "u@x");
    let e = error_reply(404, "not_found", "Not found.".into());
    assert_eq!((e.status, e.code.as_str(), e.message.as_str()), (404, "not_found", "Not found."));
}
