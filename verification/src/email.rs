//! The transactional e-mails: a shared branded layout (a table layout with
//! inline styles, as mail clients need) and the subject and body of each
//! message. Sending them is done at the service edge.
use vstd::prelude::*;

use crate::text::{i64_text, spec_i64_text};

verus! {

pub const GOLD: &'static str = "#D4AF37";
pub const SUCCESS_GREEN: &'static str = "#2ECC71";
pub const DANGER_RED: &'static str = "#E74C3C";

/// A message ready to send.
pub struct EmailContent {
    pub subject: String,
    pub html: String,
}

pub open spec fn spec_cta_html(cta: Option<(Seq<char>, Seq<char>)>) -> Seq<char> {
    match cta {
        Some((label, url)) => "<tr><td align=\"center\" style=\"padding: 8px 0 4px;\"><a href=\""@ + url + "\" style=\"display:inline-block; background:#D4AF37; color:#0F1115; font-family: Georgia, 'Times New Roman', serif; font-weight:bold; font-size:15px; text-decoration:none; padding:14px 34px; border-radius:8px;\">"@ + label + "</a></td></tr><tr><td style=\"padding: 16px 40px 0; font-family: Arial, Helvetica, sans-serif; font-size:12px; color:#9CA3AF; word-break:break-all; text-align:center;\">Or paste this link into your browser:<br/>"@ + url + "</td></tr>"@,
        None => Seq::empty(),
    }
}

pub open spec fn spec_shell(
    accent: Seq<char>,
    icon: Seq<char>,
    headline: Seq<char>,
    body_html: Seq<char>,
    cta: Option<(Seq<char>, Seq<char>)>,
) -> Seq<char> {
    "<!DOCTYPE html><html><head><meta charset=\"utf-8\"/><meta name=\"viewport\" content=\"width=device-width, initial-scale=1.0\"/><title>Chess King</title></head><body style=\"margin:0; padding:0; background:#0F1115;\"><table role=\"presentation\" width=\"100%\" cellpadding=\"0\" cellspacing=\"0\" style=\"background:#0F1115; padding: 40px 16px;\"><tr><td align=\"center\"><table role=\"presentation\" width=\"480\" cellpadding=\"0\" cellspacing=\"0\" style=\"max-width:480px; width:100%; background:#1A1D23; border-radius:12px; border-top:3px solid "@ + accent + ";\"><tr><td align=\"center\" style=\"padding: 28px 40px 8px;\"><span style=\"font-family: Georgia, 'Times New Roman', serif; letter-spacing: 3px; font-size:13px; color:#D4AF37; text-transform:uppercase;\">&#9812; Chess King</span></td></tr><tr><td align=\"center\" style=\"padding: 14px 40px 0; font-size: 40px; line-height:1;\">"@ + icon + "</td></tr><tr><td align=\"center\" style=\"padding: 18px 40px 0; font-family: Georgia, 'Times New Roman', serif; font-size:22px; color:#F5F5F5; font-weight:bold;\">"@ + headline + "</td></tr><tr><td align=\"center\" style=\"padding: 12px 40px 24px; font-family: Arial, Helvetica, sans-serif; font-size:14px; line-height:1.6; color:#9CA3AF;\">"@ + body_html + "</td></tr>"@ + spec_cta_html(cta) + "<tr><td style=\"padding: 26px 40px 28px; border-top:1px solid #2A2E37; margin-top: 20px; font-family: Arial, Helvetica, sans-serif; font-size:12px; color:#9CA3AF; text-align:center;\">Chess King &middot; Need help? Reach us through Support in the app.<br/>If you didn't expect this email, you can safely ignore it.</td></tr></table></td></tr></table></body></html>"@
}

pub open spec fn opt_pair_view(cta: Option<(&str, &str)>) -> Option<(Seq<char>, Seq<char>)> {
    match cta {
        Some((label, url)) => Some((label@, url@)),
        None => None,
    }
}

fn cta_html(cta: Option<(&str, &str)>) -> (s: String)
    ensures
        s@ == spec_cta_html(opt_pair_view(cta)),
{
    match cta {
        Some((label, url)) => {
            let mut s = String::from_str("<tr><td align=\"center\" style=\"padding: 8px 0 4px;\"><a href=\"");
            s.append(url);
            s.append("\" style=\"display:inline-block; background:#D4AF37; color:#0F1115; font-family: Georgia, 'Times New Roman', serif; font-weight:bold; font-size:15px; text-decoration:none; padding:14px 34px; border-radius:8px;\">");
            s.append(label);
            s.append("</a></td></tr><tr><td style=\"padding: 16px 40px 0; font-family: Arial, Helvetica, sans-serif; font-size:12px; color:#9CA3AF; word-break:break-all; text-align:center;\">Or paste this link into your browser:<br/>");
            s.append(url);
            s.append("</td></tr>");
            s
        },
        None => String::new(),
    }
}

/// The branded layout every message uses: the accent colour on the card's
/// top border, an icon, a headline, the body, and an optional button with
/// its link repeated as text.
pub fn shell(accent: &str, icon: &str, headline: &str, body_html: &str, cta: Option<(&str, &str)>) -> (s:
    String)
    ensures
        s@ == spec_shell(accent@, icon@, headline@, body_html@, opt_pair_view(cta)),
{
    let c = cta_html(cta);
    let mut s = String::from_str("<!DOCTYPE html><html><head><meta charset=\"utf-8\"/><meta name=\"viewport\" content=\"width=device-width, initial-scale=1.0\"/><title>Chess King</title></head><body style=\"margin:0; padding:0; background:#0F1115;\"><table role=\"presentation\" width=\"100%\" cellpadding=\"0\" cellspacing=\"0\" style=\"background:#0F1115; padding: 40px 16px;\"><tr><td align=\"center\"><table role=\"presentation\" width=\"480\" cellpadding=\"0\" cellspacing=\"0\" style=\"max-width:480px; width:100%; background:#1A1D23; border-radius:12px; border-top:3px solid ");
    s.append(accent);
    s.append(";\"><tr><td align=\"center\" style=\"padding: 28px 40px 8px;\"><span style=\"font-family: Georgia, 'Times New Roman', serif; letter-spacing: 3px; font-size:13px; color:#D4AF37; text-transform:uppercase;\">&#9812; Chess King</span></td></tr><tr><td align=\"center\" style=\"padding: 14px 40px 0; font-size: 40px; line-height:1;\">");
    s.append(icon);
    s.append("</td></tr><tr><td align=\"center\" style=\"padding: 18px 40px 0; font-family: Georgia, 'Times New Roman', serif; font-size:22px; color:#F5F5F5; font-weight:bold;\">");
    s.append(headline);
    s.append("</td></tr><tr><td align=\"center\" style=\"padding: 12px 40px 24px; font-family: Arial, Helvetica, sans-serif; font-size:14px; line-height:1.6; color:#9CA3AF;\">");
    s.append(body_html);
    s.append("</td></tr>");
    s.append(c.as_str());
    s.append("<tr><td style=\"padding: 26px 40px 28px; border-top:1px solid #2A2E37; margin-top: 20px; font-family: Arial, Helvetica, sans-serif; font-size:12px; color:#9CA3AF; text-align:center;\">Chess King &middot; Need help? Reach us through Support in the app.<br/>If you didn't expect this email, you can safely ignore it.</td></tr></table></td></tr></table></body></html>");
    s
}

/// `{base}{path}`
fn link(base: &str, path: &str) -> (s: String)
    ensures
        s@ == base@ + path@,
{
    let mut s = String::from_str(base);
    s.append(path);
    s
}

/// `{base}{path}{token}`
fn token_link(base: &str, path: &str, token: &str) -> (s: String)
    ensures
        s@ == base@ + path@ + token@,
{
    let mut s = link(base, path);
    s.append(token);
    s
}

/// The address verification mail; its link works for 15 minutes.
pub fn verification_email(token: &str, deep_link_base: &str) -> (m: EmailContent)
    ensures
        m.subject@ == "Verify your Chess King account"@,
        m.html@ == spec_shell(
            "#D4AF37"@,
            "&#9993;&#65039;"@,
            "Verify your email"@,
            "One tap and your account is active. This link works for the next 15 minutes."@,
            Some(("Verify Email"@, deep_link_base@ + "/verify-email?token="@ + token@)),
        ),
{
    let url = token_link(deep_link_base, "/verify-email?token=", token);
    let html = shell(
        GOLD,
        "&#9993;&#65039;",
        "Verify your email",
        "One tap and your account is active. This link works for the next 15 minutes.",
        Some(("Verify Email", url.as_str())),
    );
    EmailContent { subject: String::from_str("Verify your Chess King account"), html }
}

/// The welcome after verification.
pub fn welcome_email(username: &str, deep_link_base: &str) -> (m: EmailContent)
    ensures
        m.subject@ == "Welcome to Chess King"@,
        m.html@ == spec_shell(
            "#D4AF37"@,
            "&#9812;"@,
            "Welcome to the board, "@ + username@,
            "Your account is verified and your starting coins are already in your wallet. Find an opponent whenever you're ready."@,
            Some(("Start Playing"@, deep_link_base@ + "/dashboard"@)),
        ),
{
    let headline = link("Welcome to the board, ", username);
    let url = link(deep_link_base, "/dashboard");
    let html = shell(
        GOLD,
        "&#9812;",
        headline.as_str(),
        "Your account is verified and your starting coins are already in your wallet. Find an opponent whenever you're ready.",
        Some(("Start Playing", url.as_str())),
    );
    EmailContent { subject: String::from_str("Welcome to Chess King"), html }
}

/// The password reset mail; its link works for 15 minutes.
pub fn password_reset_email(token: &str, deep_link_base: &str) -> (m: EmailContent)
    ensures
        m.subject@ == "Reset your Chess King password"@,
        m.html@ == spec_shell(
            "#D4AF37"@,
            "&#128273;"@,
            "Reset your password"@,
            "This link expires in 15 minutes. If you didn't request this, you can safely ignore this email &mdash; your password won't change."@,
            Some(("Reset Password"@, deep_link_base@ + "/reset-password?token="@ + token@)),
        ),
{
    let url = token_link(deep_link_base, "/reset-password?token=", token);
    let html = shell(
        GOLD,
        "&#128273;",
        "Reset your password",
        "This link expires in 15 minutes. If you didn't request this, you can safely ignore this email &mdash; your password won't change.",
        Some(("Reset Password", url.as_str())),
    );
    EmailContent { subject: String::from_str("Reset your Chess King password"), html }
}

pub open spec fn spec_new_device_body(browser: Seq<char>, os: Seq<char>, approx_time: Seq<char>) -> Seq<char> {
    "We noticed a sign-in to your account from <strong style=\"color:#F5F5F5;\">"@ + browser
        + "</strong> on <strong style=\"color:#F5F5F5;\">"@ + os + "</strong>, around "@ + approx_time
        + ".<br/><br/>If this was you, there's nothing else to do. If it wasn't, secure your account now."@
}

/// The notice of a sign-in from a device the account had not used.
pub fn new_device_login_email(browser: &str, os: &str, approx_time: &str, deep_link_base: &str) -> (m:
    EmailContent)
    ensures
        m.subject@ == "New sign-in to your Chess King account"@,
        m.html@ == spec_shell(
            "#D4AF37"@,
            "&#128737;&#65039;"@,
            "New sign-in to your account"@,
            spec_new_device_body(browser@, os@, approx_time@),
            Some(("Review Active Sessions"@, deep_link_base@ + "/settings/sessions"@)),
        ),
{
    let mut body = String::from_str(
        "We noticed a sign-in to your account from <strong style=\"color:#F5F5F5;\">",
    );
    body.append(browser);
    body.append("</strong> on <strong style=\"color:#F5F5F5;\">");
    body.append(os);
    body.append("</strong>, around ");
    body.append(approx_time);
    body.append(
        ".<br/><br/>If this was you, there's nothing else to do. If it wasn't, secure your account now.",
    );
    let url = link(deep_link_base, "/settings/sessions");
    let html = shell(
        GOLD,
        "&#128737;&#65039;",
        "New sign-in to your account",
        body.as_str(),
        Some(("Review Active Sessions", url.as_str())),
    );
    EmailContent { subject: String::from_str("New sign-in to your Chess King account"), html }
}

/// The confirmation of 2FA being turned on or off.
pub fn two_fa_status_email(enabled: bool, deep_link_base: &str) -> (m: EmailContent)
    ensures
        enabled ==> m.subject@ == "Two-step verification turned on"@ && m.html@ == spec_shell(
            "#2ECC71"@,
            "&#128272;"@,
            "Two-step verification is on"@,
            "Your account now asks for a 6-digit code any time it's signed into from a new device. If you didn't turn this on, contact support right away."@,
            Some(("Manage Security"@, deep_link_base@ + "/settings/2fa"@)),
        ),
        !enabled ==> m.subject@ == "Two-step verification turned off"@ && m.html@ == spec_shell(
            "#E74C3C"@,
            "&#128275;"@,
            "Two-step verification is off"@,
            "Your account no longer asks for a second code at sign-in. If you didn't turn this off, secure your account immediately &mdash; change your password and turn two-step verification back on."@,
            Some(("Secure My Account"@, deep_link_base@ + "/settings/2fa"@)),
        ),
{
    let url = link(deep_link_base, "/settings/2fa");
    if enabled {
        let html = shell(
            SUCCESS_GREEN,
            "&#128272;",
            "Two-step verification is on",
            "Your account now asks for a 6-digit code any time it's signed into from a new device. If you didn't turn this on, contact support right away.",
            Some(("Manage Security", url.as_str())),
        );
        EmailContent { subject: String::from_str("Two-step verification turned on"), html }
    } else {
        let html = shell(
            DANGER_RED,
            "&#128275;",
            "Two-step verification is off",
            "Your account no longer asks for a second code at sign-in. If you didn't turn this off, secure your account immediately &mdash; change your password and turn two-step verification back on.",
            Some(("Secure My Account", url.as_str())),
        );
        EmailContent { subject: String::from_str("Two-step verification turned off"), html }
    }
}

pub open spec fn spec_payment_body(amount_pkr: i64, coins_credited: i64) -> Seq<char> {
    "Your deposit of <strong style=\"color:#F5F5F5;\">Rs "@ + spec_i64_text(amount_pkr as int)
        + "</strong> is confirmed.<br/><strong style=\"color:#D4AF37; font-size:20px;\">+"@
        + spec_i64_text(coins_credited as int) + " coins</strong><br/>added to your balance."@
}

/// The receipt of a deposit.
pub fn payment_confirmation_email(amount_pkr: i64, coins_credited: i64, deep_link_base: &str) -> (m:
    EmailContent)
    ensures
        m.subject@ == "Chess King payment confirmed"@,
        m.html@ == spec_shell(
            "#2ECC71"@,
            "&#129689;"@,
            "Payment received"@,
            spec_payment_body(amount_pkr, coins_credited),
            Some(("View Wallet"@, deep_link_base@ + "/wallet"@)),
        ),
{
    let mut body = String::from_str("Your deposit of <strong style=\"color:#F5F5F5;\">Rs ");
    let a = i64_text(amount_pkr);
    body.append(a.as_str());
    body.append("</strong> is confirmed.<br/><strong style=\"color:#D4AF37; font-size:20px;\">+");
    let c = i64_text(coins_credited);
    body.append(c.as_str());
    body.append(" coins</strong><br/>added to your balance.");
    let url = link(deep_link_base, "/wallet");
    let html = shell(
        SUCCESS_GREEN,
        "&#129689;",
        "Payment received",
        body.as_str(),
        Some(("View Wallet", url.as_str())),
    );
    EmailContent { subject: String::from_str("Chess King payment confirmed"), html }
}

/// The message that proves the SMTP settings work.
pub fn test_email() -> (m: EmailContent)
    ensures
        m.subject@ == "Chess King — SMTP test"@,
        m.html@ == spec_shell(
            "#D4AF37"@,
            "&#9989;"@,
            "Test email received"@,
            "If you're reading this, your Chess King SMTP configuration is working correctly."@,
            None,
        ),
{
    let html = shell(
        GOLD,
        "&#9989;",
        "Test email received",
        "If you're reading this, your Chess King SMTP configuration is working correctly.",
        None,
    );
    EmailContent { subject: String::from_str("Chess King — SMTP test"), html }
}

/// `From:` with the display name.
pub fn from_header(from: &str) -> (h: String)
    ensures
        h@ == "Chess King <"@ + from@ + seq!['>'],
{
    let mut h = String::from_str("Chess King <");
    h.append(from);
    h.push('>');
    h
}

/// How the SMTP client is set up.
#[derive(Debug, Clone, Copy, PartialEq, Eq, Structural)]
pub enum SmtpMode {
    /// Some credential is missing: messages are logged, not sent.
    LogOnly,
    /// TLS from the first byte (port 465).
    ImplicitTls { port: u16 },
    /// Plain connection upgraded with STARTTLS (any other port, 587 by default).
    StartTls { port: u16 },
}

/// The SMTP set-up for the given settings: without host, user or password,
/// log only; otherwise port 587 unless one is given, with implicit TLS on 465.
pub fn smtp_mode(smtp_host: &str, smtp_user: &str, smtp_pass: &str, smtp_port: Option<u16>) -> (m:
    SmtpMode)
    ensures
        (smtp_host@.len() == 0 || smtp_user@.len() == 0 || smtp_pass@.len() == 0) ==> m
            == SmtpMode::LogOnly,
        !(smtp_host@.len() == 0 || smtp_user@.len() == 0 || smtp_pass@.len() == 0) ==> {
            let port: u16 = match smtp_port {
                Some(p) => p,
                None => 587,
            };
            m == if port == 465 {
                SmtpMode::ImplicitTls { port }
            } else {
                SmtpMode::StartTls { port }
            }
        },
{
    if smtp_host.is_empty() || smtp_user.is_empty() || smtp_pass.is_empty() {
        return SmtpMode::LogOnly;
    }
    let port: u16 = match smtp_port {
        Some(p) => p,
        None => 587,
    };
    if port == 465 {
        SmtpMode::ImplicitTls { port }
    } else {
        SmtpMode::StartTls { port }
    }
}

/// The sender address: the SMTP user, or a no-reply address when mail is
/// only logged.
pub fn sender_address(mode: SmtpMode, smtp_user: &str) -> (a: String)
    ensures
        mode == SmtpMode::LogOnly ==> a@ == "noreply@chessking.app"@,
        mode != SmtpMode::LogOnly ==> a@ == smtp_user@,
{
    match mode {
        SmtpMode::LogOnly => String::from_str("noreply@chessking.app"),
        _ => String::from_str(smtp_user),
    }
}

} // verus!
