use genius_clan::admin::anticheat_dashboard::{
    awaits_review, confirm_ban_reason, override_action, risk_queue_bounds, ManualOverrideRequest,
    OverrideAction,
};
use genius_clan::admin::content::validate_page_key;
use genius_clan::admin::email_config::{smtp_config_ready, test_send_failed};
use genius_clan::admin::errors::AdminError;
use genius_clan::admin::overview::trend_days;
use genius_clan::admin::rbac::{require_role, AdminSection};
use genius_clan::admin::reauth::reauth_check;
use genius_clan::admin::reports::{validate_report_status, UpdateReportStatusRequest};
use genius_clan::admin::shop_admin::{validate_new_item, CreateShopItemRequest};
use genius_clan::admin::users::{
    grant_role_check, risk_adjustment, search_pattern, validate_reason, validate_role_name,
    validate_wallet_adjustment, AdjustRiskScoreRequest, WalletAdjustmentRequest,
};
use genius_clan::admin::wallet_admin::{page_offset, validate_payment_key};
use genius_clan::auth::jwt::new_access_claims;
use genius_clan::auth::password::hash_password;

fn failed_with(r: Result<(), AdminError>, msg: &str) -> bool {
    matches!(r, Err(AdminError::ValidationFailed(m)) if m == msg)
}

#[test]
fn role_table() {
    let claims = |role: &str| new_access_claims("u", role, "s", 0);
    assert!(require_role(&claims("super_admin"), AdminSection::RoleGrant).is_ok());
    assert!(matches!(require_role(&claims("finance_admin"), AdminSection::RoleGrant), Err(AdminError::Forbidden)));
    assert!(require_role(&claims("moderator"), AdminSection::UsersWrite).is_ok());
    assert!(matches!(require_role(&claims("moderator"), AdminSection::Reports), Err(AdminError::Forbidden)));
    assert!(require_role(&claims("support_admin"), AdminSection::Reports).is_ok());
    assert!(require_role(&claims("moderator"), AdminSection::WalletPayments).is_err());
    assert!(require_role(&claims("security_admin"), AdminSection::AntiCheat).is_ok());
    assert!(require_role(&claims("support_admin"), AdminSection::UsersReadSensitive).is_ok());
    assert!(require_role(&claims("finance_admin"), AdminSection::Config).is_ok());
    assert!(require_role(&claims("user"), AdminSection::Content).is_err());
}

#[test]
fn reauthentication() {
    let hash = hash_password("Adm1nPass").unwrap();
    assert!(reauth_check(Some(&hash), "Adm1nPass").is_ok());
    assert!(matches!(reauth_check(Some(&hash), "wrong"), Err(AdminError::ReauthFailed)));
    assert!(matches!(reauth_check(None, "Adm1nPass"), Err(AdminError::Unauthorized)));
}

#[test]
fn account_action_checks() {
    assert!(failed_with(validate_reason("   "), "Reason is required."));
    assert!(validate_reason("spam").is_ok());
    let r = risk_adjustment(90, &AdjustRiskScoreRequest { adjustment: 30, justification: "evidence".into() });
    assert!(matches!(r, Ok(100)));
    let r2 = risk_adjustment(40, &AdjustRiskScoreRequest { adjustment: -10, justification: "ok".into() });
    assert!(matches!(r2, Ok(30)));
    let r3 = risk_adjustment(40, &AdjustRiskScoreRequest { adjustment: -10, justification: " ".into() });
    assert!(matches!(r3, Err(AdminError::ValidationFailed(m)) if m == "Justification is required."));
    let w = WalletAdjustmentRequest { current_password: "x".into(), amount: 5, justification: "".into() };
    assert!(failed_with(validate_wallet_adjustment(&w), "Justification is required for a manual wallet adjustment."));
    assert_eq!(search_pattern("MagNus"), "%magnus%");
}

#[test]
fn role_grants_need_2fa() {
    assert!(validate_role_name("moderator").is_ok());
    assert!(failed_with(validate_role_name("god"), "Unknown role."));
    assert!(matches!(grant_role_check("finance_admin", None), Err(AdminError::NotFound)));
    assert!(failed_with(
        grant_role_check("finance_admin", Some(0)),
        "This user must enable 2FA on their own account before an admin role can be granted."
    ));
    assert!(grant_role_check("finance_admin", Some(1)).is_ok());
    assert!(grant_role_check("user", Some(0)).is_ok());
}

#[test]
fn anticheat_queue_and_overrides() {
    assert_eq!(risk_queue_bounds(Some("elevated")), (61, 80));
    assert_eq!(risk_queue_bounds(Some("high")), (81, 100));
    assert_eq!(risk_queue_bounds(Some("other")), (61, 100));
    assert_eq!(risk_queue_bounds(None), (61, 100));
    assert!(awaits_review(0));
    assert!(!awaits_review(1));
    let req = |a: &str, j: &str| ManualOverrideRequest { action: a.into(), justification: j.into() };
    assert!(matches!(override_action(&req("confirm_ban", "clear engine use")), Ok(OverrideAction::ConfirmBan)));
    assert!(matches!(override_action(&req("dismiss", "false positive")), Ok(OverrideAction::Dismiss)));
    assert!(matches!(override_action(&req("ban", "x")), Err(AdminError::ValidationFailed(m)) if m == "action must be confirm_ban or dismiss"));
    assert!(matches!(override_action(&req("dismiss", " ")), Err(AdminError::ValidationFailed(m)) if m == "Justification is required."));
    assert_eq!(confirm_ban_reason("x"), "Manual admin confirm-and-ban: x");
}

#[test]
fn panel_input_checks() {
    assert_eq!(page_offset(1), 0);
    assert_eq!(page_offset(0), 0);
    assert_eq!(page_offset(-5), 0);
    assert_eq!(page_offset(3), 100);
    assert!(validate_payment_key("coin_rate_pkr").is_ok());
    assert!(failed_with(validate_payment_key("db_password"), "Unknown config key."));
    let item = |c: &str, p: i64| CreateShopItemRequest {
        category: c.into(),
        name: "n".into(),
        description: None,
        image_url: "u".into(),
        price_coins: p,
        is_limited_edition: false,
        available_from: None,
        available_until: None,
    };
    assert!(validate_new_item(&item("board", 0)).is_ok());
    assert!(failed_with(validate_new_item(&item("car", 10)), "Invalid category."));
    assert!(failed_with(validate_new_item(&item("gift", -1)), "Price cannot be negative."));
    assert!(validate_report_status(&UpdateReportStatusRequest { status: "in_review".into() }).is_ok());
    assert!(failed_with(validate_report_status(&UpdateReportStatusRequest { status: "closed".into() }), "Invalid status."));
    assert!(validate_page_key("terms_of_service").is_ok());
    assert!(failed_with(validate_page_key("home"), "Unknown content key."));
    assert!(failed_with(smtp_config_ready("a@b.c", ""), "SMTP config is not set yet."));
    assert!(smtp_config_ready("a@b.c", "secret").is_ok());
    assert!(matches!(test_send_failed(), AdminError::ValidationFailed(_)));
    assert_eq!(trend_days(None), 30);
    assert_eq!(trend_days(Some(7)), 7);
}

#[test]
fn admin_error_replies() {
    let r = AdminError::Forbidden.reply();
    assert_eq!((r.status, r.code.as_str()), (403, "forbidden"));
    let v = AdminError::ValidationFailed("Reason is required.".into()).reply();
    assert_eq!((v.status, v.code.as_str(), v.message.as_str()), (400, "validation_failed", "Reason is required."));
}
