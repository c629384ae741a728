//! Rules of the Genius Clan chess platform: account validation, session and
//! device decisions, the anti-cheat risk engine, matchmaking, clocks and the
//! authoritative game state.
pub mod admin;
pub mod anticheat;
pub mod config;
pub mod db;
pub mod email;
pub mod auth;
pub mod game;
pub mod middleware;
pub mod reply;
pub mod text;
