//! The admin panel's rules: who may open which section, re-authentication
//! for sensitive actions, and the checks each action makes on its input.
pub mod errors;
pub mod rbac;
pub mod reauth;
pub mod users;
pub mod anticheat_dashboard;
pub mod wallet_admin;
pub mod shop_admin;
pub mod reports;
pub mod content;
pub mod email_config;
pub mod audit_log;
pub mod overview;
