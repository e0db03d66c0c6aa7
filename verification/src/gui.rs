//! The state behind the user interface: what the user has chosen and which
//! page is on display. Drawing it is left to the caller.

pub mod app;
pub mod colours;
pub mod settings;
