//! The features of the tool, each a small state machine.

pub mod anti_afk;
pub mod empty_session;
pub mod force_close;
pub mod game_networking;
pub mod launch;
