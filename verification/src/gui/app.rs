//! The state of the whole application, handed to each feature by reference.

use crate::features::anti_afk::press_keys;
use crate::features::anti_afk::spec_send;
use crate::features::anti_afk::AntiAfk;
use crate::features::anti_afk::KeyInput;
use crate::features::empty_session::rules_view;
use crate::features::empty_session::spec_activate;
use crate::features::empty_session::EmptySession;
use crate::features::empty_session::EmptySessionView;
use crate::features::empty_session::INTERVAL;
use crate::features::empty_session::Session;
use crate::features::force_close::activate;
use crate::features::force_close::ForceClose;
use crate::features::force_close::ForceCloseView;
use crate::features::game_networking::spec_exe_rule;
use crate::features::game_networking::spec_filter_name;
use crate::features::game_networking::spec_save_server_rule;
use crate::features::game_networking::GameNetworking;
use crate::features::launch::launch;
use crate::features::launch::spec_launch;
use crate::features::launch::Launch;
use crate::features::launch::LaunchRequest;
use crate::features::launch::LaunchRequestView;
use crate::features::launch::Platform;
use crate::gui::settings::BlockMethod;
use crate::gui::settings::Settings;
use crate::gui::settings::SettingsView;
use crate::util::countdown::lemma_count_keeps_wf;
use crate::util::firewall::Rule;
use crate::util::firewall::RuleView;
use crate::util::persistent_state::PersistentState;
use crate::util::persistent_state::PersistentStateView;
use crate::util::system_info::first_game;
use crate::util::system_info::game_pids;
use crate::util::system_info::ProcessView;
use crate::util::system_info::SystemInfo;
use vstd::prelude::*;

verus! {

/// The page on display.
#[derive(Clone, Copy, Debug, PartialEq, Eq, Structural)]
pub enum Stage {
    /// The features.
    Main,
    /// The settings.
    Settings,
    /// About the tool.
    About,
}

impl Default for Stage {
    /// The page that the tool opens with.
    fn default() -> (stage: Stage)
        ensures
            stage == Stage::Main,
    {
        Stage::Main
    }
}

impl Stage {
    /// Every page, in the order of the menu.
    pub fn variants() -> (all: Vec<Stage>)
        ensures
            all@ == seq![Stage::Main, Stage::Settings, Stage::About],
    {
        let mut all: Vec<Stage> = Vec::new();
        all.push(Stage::Main);
        all.push(Stage::Settings);
        all.push(Stage::About);
        assert(all@ =~= seq![Stage::Main, Stage::Settings, Stage::About]);
        all
    }

    /// The page's name in the menu.
    pub fn label(&self) -> (label: &'static str)
        ensures
            label@ == match self {
                Stage::Main => "Main"@,
                Stage::Settings => "Settings"@,
                Stage::About => "About"@,
            },
    {
        match self {
            Stage::Main => "Main",
            Stage::Settings => "Settings",
            Stage::About => "About",
        }
    }
}

/// Switches of the application as a whole.
#[derive(Clone, Copy, Debug, PartialEq, Eq, Structural)]
pub struct Flags {
    /// Whether the tool runs with administrator rights.
    pub elevated: bool,
    /// Whether the debug window is on display.
    pub debug: bool,
    /// Whether the window has been asked to close.
    pub closing: bool,
}

impl Flags {
    /// The switches at start-up.
    pub fn new(elevated: bool) -> (flags: Flags)
        ensures
            flags == (Flags { elevated, debug: false, closing: false }),
    {
        Flags { elevated, debug: false, closing: false }
    }
}

/// What one frame brings in: the time, the clicks of the user, and what the
/// system shows of the game's window.
#[derive(Clone, Copy, Debug, PartialEq, Eq, Structural)]
pub struct Frame {
    /// The time of the frame, in milliseconds on a monotonic clock.
    pub now: u64,
    /// Whether the launch button was clicked.
    pub launch_clicked: bool,
    /// Whether the force-close button was clicked.
    pub force_close_clicked: bool,
    /// Whether the empty-session button was clicked.
    pub empty_session_clicked: bool,
    /// Whether the block button was clicked.
    pub block_clicked: bool,
    /// Whether the unblock button was clicked.
    pub unblock_clicked: bool,
    /// Whether the game's window has the focus.
    pub window_focused: bool,
    /// Whether the player holds one of the keys of an anti-idle round.
    pub any_key_pressed: bool,
    /// Whether the cursor is on display.
    pub cursor_visible: bool,
    /// Whether the key combination of the debug window was pressed.
    pub debug_keycombo_pressed: bool,
    /// Whether the close button of the debug window was clicked.
    pub debug_viewport_close_pressed: bool,
}

impl Frame {
    /// A frame at `now` without any click, with the game's window out of
    /// focus and the debug window left alone.
    pub fn new(now: u64) -> (frame: Frame)
        ensures
            frame == (Frame {
                now,
                launch_clicked: false,
                force_close_clicked: false,
                empty_session_clicked: false,
                block_clicked: false,
                unblock_clicked: false,
                window_focused: false,
                any_key_pressed: false,
                cursor_visible: false,
                debug_keycombo_pressed: false,
                debug_viewport_close_pressed: false,
            }),
    {
        Frame {
            now,
            launch_clicked: false,
            force_close_clicked: false,
            empty_session_clicked: false,
            block_clicked: false,
            unblock_clicked: false,
            window_focused: false,
            any_key_pressed: false,
            cursor_visible: false,
            debug_keycombo_pressed: false,
            debug_viewport_close_pressed: false,
        }
    }
}

/// What [`App::update`] asks for, as plain values.
pub struct ActionsView {
    /// See [`Actions::deactivate_empty_session`].
    pub deactivate_empty_session: bool,
    /// See [`Actions::launch`].
    pub launch: Option<LaunchRequestView>,
    /// See [`Actions::force_close`].
    pub force_close: Seq<u32>,
    /// See [`Actions::activate_empty_session`].
    pub activate_empty_session: Option<Seq<RuleView>>,
    /// See [`Actions::send`].
    pub send: Seq<KeyInput>,
    /// See [`Actions::block`].
    pub block: Option<RuleView>,
    /// See [`Actions::unblock`].
    pub unblock: Option<Seq<char>>,
    /// See [`Actions::show_debug_viewport`].
    pub show_debug_viewport: bool,
    /// See [`Actions::close`].
    pub close: bool,
}

/// What the caller has to carry out after a frame, in the order of the
/// fields.
#[derive(Debug)]
pub struct Actions {
    /// Lift the block of the empty-session feature: its time has run out.
    pub deactivate_empty_session: bool,
    /// Launch the game in this way.
    pub launch: Option<LaunchRequest>,
    /// Kill these processes: the force-close was confirmed.
    pub force_close: Vec<u32>,
    /// Install these rules: the session is being emptied.
    pub activate_empty_session: Option<Vec<Rule>>,
    /// Inject these keyboard events: an anti-idle round is due.
    pub send: Vec<KeyInput>,
    /// Install this rule and then report whether it is in place.
    pub block: Option<Rule>,
    /// Remove the rule of this name and then report whether it is in place.
    pub unblock: Option<&'static str>,
    /// Put the debug window on display.
    pub show_debug_viewport: bool,
    /// Close the main window.
    pub close: bool,
}

impl View for Actions {
    type V = ActionsView;

    open spec fn view(&self) -> ActionsView {
        ActionsView {
            deactivate_empty_session: self.deactivate_empty_session,
            launch: match self.launch {
                Some(request) => Some(request@),
                None => None,
            },
            force_close: self.force_close@,
            activate_empty_session: rules_view(self.activate_empty_session),
            send: self.send@,
            block: match self.block {
                Some(rule) => Some(rule@),
                None => None,
            },
            unblock: match self.unblock {
                Some(name) => Some(name@),
                None => None,
            },
            show_debug_viewport: self.show_debug_viewport,
            close: self.close,
        }
    }
}

/// What an [`App`] stands for.
pub struct AppView {
    /// The user's settings.
    pub settings: SettingsView,
    /// The page on display.
    pub stage: Stage,
    /// Switches of the application as a whole.
    pub flags: Flags,
    /// The processes last seen.
    pub system_info: Seq<ProcessView>,
    /// The anti-idle feature.
    pub anti_afk: AntiAfk,
    /// The timers of the empty-session feature.
    pub empty_session: EmptySessionView,
    /// The confirmation in front of force-closing the game.
    pub force_close: ForceCloseView,
    /// The network block.
    pub game_networking: GameNetworking,
    /// The storefront to launch through.
    pub launch: Launch,
}

impl AppView {
    /// The states between two frames.
    pub open spec fn wf(self) -> bool {
        self.empty_session.wf() && self.force_close.wf()
    }

    /// The rule that the block button installs: for the whole game, the rule
    /// for the running game, where one is found; for the save server, the
    /// rule for the address in the settings.
    pub open spec fn block_rule(self) -> Option<RuleView> {
        match self.settings.block_method {
            BlockMethod::EntireGame => match first_game(self.system_info) {
                Some(game) => match game.exe {
                    Some(path) => Some(spec_exe_rule(path)),
                    None => None,
                },
                None => None,
            },
            BlockMethod::SaveServer => Some(spec_save_server_rule(self.settings.save_server_ip)),
        }
    }

    /// The state after a frame: the timers of the empty-session feature and
    /// of the failure indicator are polled, the button of the empty-session
    /// feature is handled, the confirmation of the force-close is polled, the
    /// anti-idle feature is polled, and the debug window is switched.
    pub open spec fn update(self, frame: Frame) -> AppView {
        AppView {
            empty_session: if frame.empty_session_clicked {
                self.empty_session.run_timers(frame.now as nat).request(
                    self.system_info,
                    frame.now as nat,
                )
            } else {
                self.empty_session.run_timers(frame.now as nat)
            },
            force_close: self.force_close.prompt(frame.force_close_clicked, frame.now as nat),
            anti_afk: if self.anti_afk.sends(
                frame.window_focused,
                frame.any_key_pressed,
                frame.cursor_visible,
                frame.now as nat,
            ) {
                AntiAfk { interval: frame.now, ..self.anti_afk }
            } else {
                self.anti_afk
            },
            game_networking: self.game_networking.spec_run_timers(frame.now as nat),
            flags: Flags {
                debug: self.flags.debug != (frame.debug_keycombo_pressed
                    || frame.debug_viewport_close_pressed),
                ..self.flags
            },
            ..self
        }
    }

    /// What a frame asks of the caller.
    pub open spec fn actions(self, frame: Frame) -> ActionsView {
        ActionsView {
            deactivate_empty_session: self.empty_session.expires_at(frame.now as nat),
            launch: if frame.launch_clicked {
                Some(spec_launch(self.launch.selected, self.settings.launch_version))
            } else {
                None
            },
            force_close: if self.force_close.fires(frame.force_close_clicked, frame.now as nat) {
                game_pids(self.system_info)
            } else {
                Seq::empty()
            },
            activate_empty_session: if frame.empty_session_clicked
                && self.empty_session.run_timers(frame.now as nat).accepts(self.system_info) {
                spec_activate(self.system_info)
            } else {
                None
            },
            send: if self.anti_afk.sends(
                frame.window_focused,
                frame.any_key_pressed,
                frame.cursor_visible,
                frame.now as nat,
            ) {
                spec_send(press_keys())
            } else {
                Seq::empty()
            },
            block: if frame.block_clicked {
                self.block_rule()
            } else {
                None
            },
            unblock: if frame.unblock_clicked {
                Some(spec_filter_name(self.settings.block_method))
            } else {
                None
            },
            show_debug_viewport: self.update(frame).flags.debug,
            close: self.flags.closing,
        }
    }

    /// The state with what was saved put back in place.
    pub open spec fn apply(self, saved: PersistentStateView) -> AppView {
        AppView {
            launch: Launch { selected: saved.launcher },
            anti_afk: AntiAfk { enabled: saved.anti_afk_enabled, ..self.anti_afk },
            settings: saved.settings,
            ..self
        }
    }

    /// What is saved of the state.
    pub open spec fn persistent_state(self) -> PersistentStateView {
        PersistentStateView {
            launcher: self.launch.selected,
            anti_afk_enabled: self.anti_afk.enabled,
            settings: self.settings,
        }
    }
}

/// No frame closes the game on a first click: while nothing is pending, the
/// frame asks for no process to be killed, clicked or not.
pub proof fn lemma_first_click_closes_nothing(app: AppView, frame: Frame)
    requires
        app.force_close.gate is Idle,
    ensures
        app.actions(frame).force_close == Seq::<u32>::empty(),
{
}

/// A block of the empty-session feature is lifted once: the first frame that
/// comes [`INTERVAL`] or more after the block asks for it and leaves the
/// feature at rest, and the frame after that does not ask again.
pub proof fn lemma_expired_block_is_lifted_once(app: AppView, frame: Frame, next: Frame)
    requires
        app.empty_session.session matches Session::Suspended { since } && frame.now >= since
            + INTERVAL,
        !frame.empty_session_clicked,
    ensures
        app.actions(frame).deactivate_empty_session,
        app.update(frame).empty_session.session is Normal,
        !app.update(frame).actions(next).deactivate_empty_session,
{
}

/// A frame keeps the state between frames.
pub proof fn lemma_update_keeps_wf(app: AppView, frame: Frame)
    requires
        app.wf(),
    ensures
        app.update(frame).wf(),
{
    lemma_count_keeps_wf(app.empty_session.countdown, frame.now as nat);
}

/// What is to be done when the application ends.
#[derive(Debug)]
pub struct Shutdown {
    /// The state to save.
    pub persistent_state: PersistentState,
    /// Whether the block of the empty-session feature is to be lifted.
    pub deactivate_empty_session: bool,
}

/// The state of the whole application.
#[derive(Debug)]
pub struct App {
    /// The user's settings.
    pub settings: Settings,
    /// The page on display.
    pub stage: Stage,
    /// Switches of the application as a whole.
    pub flags: Flags,
    /// The processes last seen.
    pub system_info: SystemInfo,
    /// The anti-idle feature.
    pub anti_afk: AntiAfk,
    /// The timers of the empty-session feature.
    pub empty_session: EmptySession,
    /// The confirmation in front of force-closing the game.
    pub force_close: ForceClose,
    /// The network block.
    pub game_networking: GameNetworking,
    /// The storefront to launch through.
    pub launch: Launch,
}

impl View for App {
    type V = AppView;

    open spec fn view(&self) -> AppView {
        AppView {
            settings: self.settings@,
            stage: self.stage,
            flags: self.flags,
            system_info: self.system_info@,
            anti_afk: self.anti_afk,
            empty_session: self.empty_session@,
            force_close: self.force_close@,
            game_networking: self.game_networking,
            launch: self.launch,
        }
    }
}

impl App {
    /// See [`AppView::wf`].
    pub open spec fn wf(&self) -> bool {
        self@.wf()
    }

    /// The state at start-up, at time `now`: default settings, the main page,
    /// every feature at rest, and the network block as the firewall shows it.
    pub fn new(elevated: bool, save_server_blocked: bool, exe_blocked: bool, now: u64) -> (app: App)
        ensures
            app@ == (AppView {
                settings: SettingsView::initial(),
                stage: Stage::Main,
                flags: Flags { elevated, debug: false, closing: false },
                system_info: Seq::empty(),
                anti_afk: AntiAfk { enabled: false, interval: now },
                empty_session: EmptySessionView::rest(),
                force_close: ForceCloseView::idle(),
                game_networking: GameNetworking {
                    blocked: save_server_blocked || exe_blocked,
                    failed: None,
                },
                launch: Launch { selected: Platform::Steam },
            }),
            app.wf(),
    {
        App {
            settings: Settings::default(),
            stage: Stage::default(),
            flags: Flags::new(elevated),
            system_info: SystemInfo::default(),
            anti_afk: AntiAfk::new(now),
            empty_session: EmptySession::default(),
            force_close: ForceClose::default(),
            game_networking: GameNetworking::new(save_server_blocked, exe_blocked),
            launch: Launch::default(),
        }
    }

    /// Whether the tool is to restart itself with administrator rights right
    /// after start-up: the user asked for it and the tool has none yet.
    pub fn should_elevate(&self) -> (elevate: bool)
        ensures
            elevate == (!self@.flags.elevated && self@.settings.start_elevated),
    {
        !self.flags.elevated && self.settings.start_elevated
    }

    /// Shows or hides the debug window when its key combination was pressed
    /// or its close button was clicked in this frame.
    pub fn toggle_debug(&mut self, keycombo_pressed: bool, viewport_close_pressed: bool)
        ensures
            final(self)@ == (AppView {
                flags: Flags {
                    debug: old(self)@.flags.debug != (keycombo_pressed || viewport_close_pressed),
                    ..old(self)@.flags
                },
                ..old(self)@
            }),
    {
        if keycombo_pressed || viewport_close_pressed {
            self.flags.debug = !self.flags.debug;
        }
    }

    /// Tests [`App::wf`], for callers that fill in the fields themselves.
    pub fn is_valid(&self) -> (valid: bool)
        ensures
            valid == self.wf(),
    {
        self.empty_session.is_valid() && !self.force_close.current_frame()
    }

    /// The rule that the block button installs: see [`AppView::block_rule`].
    pub fn block_rule(&self) -> (rule: Option<Rule>)
        ensures
            match rule {
                Some(rule) => self@.block_rule() == Some(rule@),
                None => self@.block_rule() is None,
            },
    {
        match self.settings.block_method {
            BlockMethod::EntireGame => GameNetworking::block_exe(&self.system_info),
            BlockMethod::SaveServer => Some(
                GameNetworking::block_save_server(self.settings.save_server_ip.as_str()),
            ),
        }
    }

    /// Advances the application by one frame and returns what the caller has
    /// to carry out. Every timer and every confirmation is polled once, with
    /// the time and the clicks of the frame; nothing is polled twice, and
    /// nothing is carried out here.
    pub fn update(&mut self, frame: &Frame) -> (actions: Actions)
        requires
            old(self).wf(),
        ensures
            final(self)@ == old(self)@.update(*frame),
            actions@ == old(self)@.actions(*frame),
            final(self).wf(),
    {
        let deactivate_empty_session = self.empty_session.run_timers(frame.now);
        self.game_networking.run_timers(frame.now);
        let launch = if frame.launch_clicked {
            Some(launch(&self.launch.selected, &self.settings.launch_version))
        } else {
            None
        };
        let force_close = if self.force_close.prompt(frame.force_close_clicked, frame.now) {
            activate(&self.system_info)
        } else {
            Vec::new()
        };
        let activate_empty_session = if frame.empty_session_clicked {
            self.empty_session.request(&self.system_info, frame.now)
        } else {
            None
        };
        let send = self.anti_afk.poll(
            frame.window_focused,
            frame.any_key_pressed,
            frame.cursor_visible,
            frame.now,
        );
        let block = if frame.block_clicked {
            self.block_rule()
        } else {
            None
        };
        let unblock = if frame.unblock_clicked {
            Some(GameNetworking::filter_name(self.settings.block_method))
        } else {
            None
        };
        self.toggle_debug(frame.debug_keycombo_pressed, frame.debug_viewport_close_pressed);
        Actions {
            deactivate_empty_session,
            launch,
            force_close,
            activate_empty_session,
            send,
            block,
            unblock,
            show_debug_viewport: self.flags.debug,
            close: self.flags.closing,
        }
    }

    /// What is saved of the state.
    pub fn persistent_state(&self) -> (saved: PersistentState)
        ensures
            saved@ == self@.persistent_state(),
    {
        PersistentState {
            launcher: self.launch.selected,
            anti_afk_enabled: self.anti_afk.enabled,
            settings: self.settings.duplicate(),
        }
    }

    /// Ends the application: returns the state to save, and has the block of
    /// the empty-session feature lifted, whatever state the feature is in and
    /// however much of its time is left.
    pub fn shutdown(&mut self) -> (shutdown: Shutdown)
        ensures
            shutdown.persistent_state@ == old(self)@.persistent_state(),
            shutdown.deactivate_empty_session,
            final(self)@ == (AppView {
                empty_session: EmptySessionView {
                    session: Session::Normal,
                    ..old(self)@.empty_session
                },
                ..old(self)@
            }),
    {
        let persistent_state = self.persistent_state();
        let deactivate_empty_session = self.empty_session.shutdown();
        Shutdown { persistent_state, deactivate_empty_session }
    }
}

} // verus!
