//! The decisions of a small companion tool for one game: a countdown for the
//! display, a two-click confirmation in front of force-closing the game, an
//! interval that paces the anti-idle key presses, and a network block that
//! is lifted again after a set time and at shutdown without fail.
//!
//! Everything here is advanced by polls. A poll hands in the current reading
//! of a monotonic clock, in milliseconds, together with the clicks of the
//! user, and gets back what is to be carried out: processes to kill, firewall
//! rules to install or remove, keyboard events to inject. Nothing in this
//! crate touches the game, the firewall or the keyboard itself.
//!
//! - [`util`] holds the building blocks: the clock, the countdown, the
//!   interval, the process snapshot and the firewall rules as plain data.
//! - [`features`] holds one state machine per feature.
//! - [`gui`] holds the state behind the user interface and
//!   [`gui::app::App::update`], which advances all of it by one frame.

pub mod features;
pub mod gui;
pub mod util;
