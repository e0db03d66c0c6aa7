//! Launching the game through one of three storefronts.

use crate::gui::settings::LaunchVersion;
use vstd::prelude::*;

verus! {

/// Address that has Steam start the enhanced edition.
pub const STEAM_ENHANCED: &'static str = "steam://run/3240220";

/// Address that has Steam start the legacy edition.
pub const STEAM_LEGACY: &'static str = "steam://run/271590";

/// Address that has the Epic Games launcher start the enhanced edition.
pub const EPIC_ENHANCED: &'static str =
    "com.epicgames.launcher://apps/8769e24080ea413b8ebca3f1b8c50951?action=launch&silent=true";

/// Address that has the Epic Games launcher start the legacy edition.
pub const EPIC_LEGACY: &'static str =
    "com.epicgames.launcher://apps/9d2d0eb64d5c44529cece33fe2a46482?action=launch&silent=true";

/// Registry key, under the local machine, of the enhanced edition as the
/// Rockstar Games launcher installed it.
pub const ROCKSTAR_KEY_ENHANCED: &'static str =
    "SOFTWARE\\WOW6432Node\\Rockstar Games\\GTAV Enhanced";

/// Registry key, under the local machine, of the legacy edition as the
/// Rockstar Games launcher installed it.
pub const ROCKSTAR_KEY_LEGACY: &'static str =
    "SOFTWARE\\WOW6432Node\\Rockstar Games\\Grand Theft Auto V";

/// Registry value that holds the installation folder.
pub const ROCKSTAR_INSTALL_FOLDER: &'static str = "InstallFolder";

/// The program to start in the installation folder.
pub const ROCKSTAR_PROGRAM: &'static str = "PlayGTAV.exe";

/// A storefront through which the game is launched.
#[derive(Clone, Copy, Debug, PartialEq, Eq, Structural)]
pub enum Platform {
    /// Steam.
    Steam,
    /// The Rockstar Games launcher.
    Rockstar,
    /// The Epic Games launcher.
    Epic,
}

impl Default for Platform {
    /// The storefront that a new installation starts with.
    fn default() -> (platform: Platform)
        ensures
            platform == Platform::Steam,
    {
        Platform::Steam
    }
}

impl Platform {
    /// Every storefront, in the order of the menu.
    pub fn variants() -> (all: Vec<Platform>)
        ensures
            all@ == seq![Platform::Steam, Platform::Rockstar, Platform::Epic],
    {
        let mut all: Vec<Platform> = Vec::new();
        all.push(Platform::Steam);
        all.push(Platform::Rockstar);
        all.push(Platform::Epic);
        assert(all@ =~= seq![Platform::Steam, Platform::Rockstar, Platform::Epic]);
        all
    }

    /// The storefront's name on display.
    pub fn label(&self) -> (label: &'static str)
        ensures
            label@ == match self {
                Platform::Steam => "Steam"@,
                Platform::Rockstar => "Rockstar Games"@,
                Platform::Epic => "Epic Games"@,
            },
    {
        match self {
            Platform::Steam => "Steam",
            Platform::Rockstar => "Rockstar Games",
            Platform::Epic => "Epic Games",
        }
    }
}

/// The storefront that the user has selected.
#[derive(Clone, Copy, Debug, PartialEq, Eq, Structural)]
pub struct Launch {
    /// The selection.
    pub selected: Platform,
}

impl Default for Launch {
    /// The selection of a new installation.
    fn default() -> (launch: Launch)
        ensures
            launch == (Launch { selected: Platform::Steam }),
    {
        Launch { selected: Platform::default() }
    }
}

/// What the caller has to do to launch the game.
#[derive(Clone, Copy, Debug)]
pub enum LaunchRequest {
    /// Hand the address to the system, which opens it with the storefront.
    Open {
        /// The address.
        url: &'static str,
    },
    /// Read the installation folder from the registry and start the program
    /// in it; where the key or the value is missing, the game is not
    /// installed and nothing is to be done.
    RunInstalled {
        /// The key under the local machine.
        key: &'static str,
        /// The value that holds the folder.
        value: &'static str,
        /// The program's file name.
        program: &'static str,
    },
}

/// What [`launch`] asks for, as plain text.
pub enum LaunchRequestView {
    /// See [`LaunchRequest::Open`].
    Open { url: Seq<char> },
    /// See [`LaunchRequest::RunInstalled`].
    RunInstalled { key: Seq<char>, value: Seq<char>, program: Seq<char> },
}

impl View for LaunchRequest {
    type V = LaunchRequestView;

    open spec fn view(&self) -> LaunchRequestView {
        match self {
            LaunchRequest::Open { url } => LaunchRequestView::Open { url: url@ },
            LaunchRequest::RunInstalled { key, value, program } => LaunchRequestView::RunInstalled {
                key: key@,
                value: value@,
                program: program@,
            },
        }
    }
}

/// What launching `version` through `platform` takes.
pub open spec fn spec_launch(platform: Platform, version: LaunchVersion) -> LaunchRequestView {
    match platform {
        Platform::Steam => LaunchRequestView::Open {
            url: match version {
                LaunchVersion::Enhanced => STEAM_ENHANCED@,
                LaunchVersion::Legacy => STEAM_LEGACY@,
            },
        },
        Platform::Rockstar => LaunchRequestView::RunInstalled {
            key: match version {
                LaunchVersion::Enhanced => ROCKSTAR_KEY_ENHANCED@,
                LaunchVersion::Legacy => ROCKSTAR_KEY_LEGACY@,
            },
            value: ROCKSTAR_INSTALL_FOLDER@,
            program: ROCKSTAR_PROGRAM@,
        },
        Platform::Epic => LaunchRequestView::Open {
            url: match version {
                LaunchVersion::Enhanced => EPIC_ENHANCED@,
                LaunchVersion::Legacy => EPIC_LEGACY@,
            },
        },
    }
}

/// Says what the caller has to do to launch `version` of the game through
/// `platform`.
pub fn launch(platform: &Platform, version: &LaunchVersion) -> (request: LaunchRequest)
    ensures
        request@ == spec_launch(*platform, *version),
{
    match platform {
        Platform::Steam => {
            let steam_url = match version {
                LaunchVersion::Enhanced => STEAM_ENHANCED,
                LaunchVersion::Legacy => STEAM_LEGACY,
            };
            LaunchRequest::Open { url: steam_url }
        },
        Platform::Rockstar => {
            let rockstar_key = match version {
                LaunchVersion::Enhanced => ROCKSTAR_KEY_ENHANCED,
                LaunchVersion::Legacy => ROCKSTAR_KEY_LEGACY,
            };
            LaunchRequest::RunInstalled {
                key: rockstar_key,
                value: ROCKSTAR_INSTALL_FOLDER,
                program: ROCKSTAR_PROGRAM,
            }
        },
        Platform::Epic => {
            let epic_url = match version {
                LaunchVersion::Enhanced => EPIC_ENHANCED,
                LaunchVersion::Legacy => EPIC_LEGACY,
            };
            LaunchRequest::Open { url: epic_url }
        },
    }
}

} // verus!
