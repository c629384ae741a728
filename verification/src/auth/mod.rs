//! Accounts: validation, passwords and tokens, login, sessions, 2FA and
//! device approval, registration and resends.
pub mod errors;
pub mod validation;
pub mod password;
pub mod tokens;
pub mod login;
pub mod session;
pub mod two_fa;
pub mod register;
pub mod register_intent;
pub mod jwt;
pub mod github_users;
pub mod github_sessions;
pub mod github_wallet;
pub mod flow;
