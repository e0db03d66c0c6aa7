//! The user's settings.

use vstd::prelude::*;
use vstd::string::StringExecFns;

verus! {

/// Address of the game's save server, the default for blocking it.
pub const ROCKSTAR_SAVE_SERVER: &'static str = "192.81.241.171";

/// The colour theme.
#[derive(Clone, Copy, Debug, PartialEq, Eq, Structural)]
pub enum Theme {
    /// Light or dark as the system is set.
    Auto,
    /// The light theme.
    Latte,
    /// The lightest of the dark themes.
    Frappe,
    /// The medium dark theme.
    Macchiato,
    /// The darkest theme.
    Mocha,
}

impl Default for Theme {
    /// The theme that a new installation starts with.
    fn default() -> (theme: Theme)
        ensures
            theme == Theme::Auto,
    {
        Theme::Auto
    }
}

impl Theme {
    /// Every theme, in the order of the menu.
    pub fn variants() -> (all: Vec<Theme>)
        ensures
            all@ == seq![Theme::Auto, Theme::Latte, Theme::Frappe, Theme::Macchiato, Theme::Mocha],
    {
        let mut all: Vec<Theme> = Vec::new();
        all.push(Theme::Auto);
        all.push(Theme::Latte);
        all.push(Theme::Frappe);
        all.push(Theme::Macchiato);
        all.push(Theme::Mocha);
        assert(all@ =~= seq![Theme::Auto, Theme::Latte, Theme::Frappe, Theme::Macchiato, Theme::Mocha]);
        all
    }

    /// The theme's name on display.
    pub fn label(&self) -> (label: &'static str)
        ensures
            label@ == match self {
                Theme::Auto => "Auto"@,
                Theme::Latte => "Latte"@,
                Theme::Frappe => "Frappe"@,
                Theme::Macchiato => "Macchiato"@,
                Theme::Mocha => "Mocha"@,
            },
    {
        match self {
            Theme::Auto => "Auto",
            Theme::Latte => "Latte",
            Theme::Frappe => "Frappe",
            Theme::Macchiato => "Macchiato",
            Theme::Mocha => "Mocha",
        }
    }

    /// The theme to draw with: the theme itself, and for [`Theme::Auto`] the
    /// darkest theme on a dark system and the light one on a light system.
    pub fn resolve(self, system_theme_dark: bool) -> (theme: Theme)
        ensures
            theme != Theme::Auto,
            self != Theme::Auto ==> theme == self,
            self == Theme::Auto ==> theme == if system_theme_dark {
                Theme::Mocha
            } else {
                Theme::Latte
            },
    {
        match self {
            Theme::Auto => if system_theme_dark {
                Theme::Mocha
            } else {
                Theme::Latte
            },
            other => other,
        }
    }
}

/// Which edition of the game to launch.
#[derive(Clone, Copy, Debug, PartialEq, Eq, Structural)]
pub enum LaunchVersion {
    /// The enhanced edition.
    Enhanced,
    /// The legacy edition.
    Legacy,
}

impl Default for LaunchVersion {
    /// The edition that a new installation starts with.
    fn default() -> (version: LaunchVersion)
        ensures
            version == LaunchVersion::Enhanced,
    {
        LaunchVersion::Enhanced
    }
}

impl LaunchVersion {
    /// Every edition, in the order of the menu.
    pub fn variants() -> (all: Vec<LaunchVersion>)
        ensures
            all@ == seq![LaunchVersion::Enhanced, LaunchVersion::Legacy],
    {
        let mut all: Vec<LaunchVersion> = Vec::new();
        all.push(LaunchVersion::Enhanced);
        all.push(LaunchVersion::Legacy);
        assert(all@ =~= seq![LaunchVersion::Enhanced, LaunchVersion::Legacy]);
        all
    }

    /// The edition's name on display.
    pub fn label(&self) -> (label: &'static str)
        ensures
            label@ == match self {
                LaunchVersion::Enhanced => "Enhanced"@,
                LaunchVersion::Legacy => "Legacy"@,
            },
    {
        match self {
            LaunchVersion::Enhanced => "Enhanced",
            LaunchVersion::Legacy => "Legacy",
        }
    }
}

/// What the network block applies to.
#[derive(Clone, Copy, Debug, PartialEq, Eq, Structural)]
pub enum BlockMethod {
    /// All traffic of the game.
    EntireGame,
    /// The traffic with the save server only.
    SaveServer,
}

impl Default for BlockMethod {
    /// The method that a new installation starts with.
    fn default() -> (method: BlockMethod)
        ensures
            method == BlockMethod::EntireGame,
    {
        BlockMethod::EntireGame
    }
}

impl BlockMethod {
    /// Every method, in the order of the menu.
    pub fn variants() -> (all: Vec<BlockMethod>)
        ensures
            all@ == seq![BlockMethod::EntireGame, BlockMethod::SaveServer],
    {
        let mut all: Vec<BlockMethod> = Vec::new();
        all.push(BlockMethod::EntireGame);
        all.push(BlockMethod::SaveServer);
        assert(all@ =~= seq![BlockMethod::EntireGame, BlockMethod::SaveServer]);
        all
    }

    /// The method's name on display.
    pub fn label(&self) -> (label: &'static str)
        ensures
            label@ == match self {
                BlockMethod::EntireGame => "Entire game"@,
                BlockMethod::SaveServer => "Save server"@,
            },
    {
        match self {
            BlockMethod::EntireGame => "Entire game",
            BlockMethod::SaveServer => "Save server",
        }
    }
}

/// What a [`Settings`] stands for.
pub struct SettingsView {
    /// Whether the tool restarts itself with administrator rights.
    pub start_elevated: bool,
    /// The colour theme.
    pub theme: Theme,
    /// The edition to launch.
    pub launch_version: LaunchVersion,
    /// The address that counts as the save server.
    pub save_server_ip: Seq<char>,
    /// What the network block applies to.
    pub block_method: BlockMethod,
}

impl SettingsView {
    /// The settings of a new installation.
    pub open spec fn initial() -> SettingsView {
        SettingsView {
            start_elevated: false,
            theme: Theme::Auto,
            launch_version: LaunchVersion::Enhanced,
            save_server_ip: ROCKSTAR_SAVE_SERVER@,
            block_method: BlockMethod::EntireGame,
        }
    }
}

/// The user's settings.
#[derive(Debug)]
pub struct Settings {
    /// Whether the tool restarts itself with administrator rights.
    pub start_elevated: bool,
    /// The colour theme.
    pub theme: Theme,
    /// The edition to launch.
    pub launch_version: LaunchVersion,
    /// The address that counts as the save server.
    pub save_server_ip: String,
    /// What the network block applies to.
    pub block_method: BlockMethod,
}

impl View for Settings {
    type V = SettingsView;

    open spec fn view(&self) -> SettingsView {
        SettingsView {
            start_elevated: self.start_elevated,
            theme: self.theme,
            launch_version: self.launch_version,
            save_server_ip: self.save_server_ip@,
            block_method: self.block_method,
        }
    }
}

impl Default for Settings {
    /// The settings of a new installation.
    fn default() -> (settings: Settings)
        ensures
            settings@ == SettingsView::initial(),
    {
        Settings {
            start_elevated: false,
            theme: Theme::default(),
            launch_version: LaunchVersion::default(),
            save_server_ip: String::from_str(ROCKSTAR_SAVE_SERVER),
            block_method: BlockMethod::default(),
        }
    }
}

impl Settings {
    /// A copy of the settings.
    pub fn duplicate(&self) -> (copy: Settings)
        ensures
            copy@ == self@,
    {
        Settings {
            start_elevated: self.start_elevated,
            theme: self.theme,
            launch_version: self.launch_version,
            save_server_ip: self.save_server_ip.clone(),
            block_method: self.block_method,
        }
    }

    /// Puts the save server's address back to [`ROCKSTAR_SAVE_SERVER`].
    pub fn reset_save_server_ip(&mut self)
        ensures
            final(self)@ == (SettingsView { save_server_ip: ROCKSTAR_SAVE_SERVER@, ..old(self)@ }),
    {
        self.save_server_ip = String::from_str(ROCKSTAR_SAVE_SERVER);
    }
}

} // verus!
