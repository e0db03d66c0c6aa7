//! Names by which the game is recognised.

use vstd::prelude::*;

verus! {

/// File name of the game's enhanced edition.
pub const EXE_ENHANCED: &'static str = "GTA5_Enhanced.exe";

/// File name of the game's legacy edition.
pub const EXE_LEGACY: &'static str = "GTA5.exe";

/// Title of the game's window.
pub const WINDOW_TITLE: &'static str = "Grand Theft Auto V";

} // verus!
