//! The anti-cheat engine: risk scoring, escalation, CAPTCHA triggers and
//! checks, ad-reward rules, device and IP signals, and ledger integrity.
pub mod ban_escalation;
pub mod risk_score;
pub mod captcha;
pub mod device_fingerprint;
pub mod ip_reputation;
pub mod ad_reward;
pub mod errors;
pub mod hash_integrity;
pub mod match_integrity;
pub mod monitor;
