//! Matches: game state, clocks, matchmaking, disconnects, hints and invites.
pub mod chess;
pub mod engine;
pub mod errors;
pub mod matchmaking;
pub mod clock;
pub mod disconnect;
pub mod hint;
pub mod invite;
pub mod finalize;
pub mod play;
