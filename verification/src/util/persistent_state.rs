//! What the tool keeps from one run to the next.

use crate::features::launch::Platform;
use crate::gui::app::App;
use crate::gui::app::AppView;
use crate::gui::settings::Settings;
use crate::gui::settings::SettingsView;
use vstd::prelude::*;

verus! {

/// What a [`PersistentState`] stands for.
pub struct PersistentStateView {
    /// The storefront to launch through.
    pub launcher: Platform,
    /// Whether the anti-idle feature is switched on.
    pub anti_afk_enabled: bool,
    /// The user's settings.
    pub settings: SettingsView,
}

/// What the tool keeps from one run to the next. Reading and writing the
/// file that holds it is left to the caller.
#[derive(Debug)]
pub struct PersistentState {
    /// The storefront to launch through.
    pub launcher: Platform,
    /// Whether the anti-idle feature is switched on.
    pub anti_afk_enabled: bool,
    /// The user's settings.
    pub settings: Settings,
}

impl View for PersistentState {
    type V = PersistentStateView;

    open spec fn view(&self) -> PersistentStateView {
        PersistentStateView {
            launcher: self.launcher,
            anti_afk_enabled: self.anti_afk_enabled,
            settings: self.settings@,
        }
    }
}

impl PersistentState {
    /// Puts what was saved back in place: storefront, anti-idle switch and
    /// settings. Everything else in `app` stays as it is.
    pub fn apply_to(self, app: &mut App)
        ensures
            final(app)@ == old(app)@.apply(self@),
    {
        let Self { launcher, anti_afk_enabled, settings } = self;
        app.launch.selected = launcher;
        app.anti_afk.enabled = anti_afk_enabled;
        app.settings = settings;
    }
}

/// What is put in place is what is saved again: saving right after applying
/// gives back what was applied.
pub proof fn lemma_apply_then_save(app: AppView, saved: PersistentStateView)
    ensures
        app.apply(saved).persistent_state() == saved,
{
}

/// Applying what was just saved changes nothing.
pub proof fn lemma_save_then_apply(app: AppView)
    ensures
        app.apply(app.persistent_state()) == app,
{
}

} // verus!
