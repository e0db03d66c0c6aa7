//! The colours of the status indicator.

use crate::features::game_networking::BlockedStatus;
use vstd::prelude::*;

verus! {

/// A colour by its red, green and blue parts.
#[derive(Clone, Copy, Debug, PartialEq, Eq, Structural)]
pub struct Rgb {
    /// Red.
    pub r: u8,
    /// Green.
    pub g: u8,
    /// Blue.
    pub b: u8,
}

/// The indicator's red.
pub open spec fn red() -> Rgb {
    Rgb { r: 255, g: 96, b: 96 }
}

/// The indicator's yellow.
pub open spec fn yellow() -> Rgb {
    Rgb { r: 255, g: 255, b: 96 }
}

/// The indicator's green.
pub open spec fn green() -> Rgb {
    Rgb { r: 96, g: 255, b: 96 }
}

impl BlockedStatus {
    /// The indicator's colour: red while blocked, yellow after a failure,
    /// green otherwise.
    pub fn to_color32(self) -> (colour: Rgb)
        ensures
            colour == match self {
                BlockedStatus::Blocked => red(),
                BlockedStatus::Failed => yellow(),
                BlockedStatus::Unblocked => green(),
            },
    {
        match self {
            BlockedStatus::Blocked => Rgb { r: 255, g: 96, b: 96 },
            BlockedStatus::Failed => Rgb { r: 255, g: 255, b: 96 },
            BlockedStatus::Unblocked => Rgb { r: 96, g: 255, b: 96 },
        }
    }
}

} // verus!
