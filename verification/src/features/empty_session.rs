//! Emptying the current session: the game's UDP traffic is blocked for a
//! short while, and the block is lifted again without fail.

use crate::util::clock::millis_since;
use crate::util::countdown::Countdown;
use crate::util::countdown::CountdownView;
use crate::util::firewall::Rule;
use crate::util::firewall::RuleDirection;
use crate::util::firewall::RuleModeView;
use crate::util::firewall::RuleProtocol;
use crate::util::firewall::RuleView;
use crate::util::system_info::first_game;
use crate::util::system_info::ProcessView;
use crate::util::system_info::SystemInfo;
use vstd::prelude::*;

verus! {

/// Name of the rule that blocks the game's inbound UDP traffic.
pub const FILTER_NAME_EMPTY_SESSION_IN: &'static str =
    "[GTA Tools] Block inbound UDP traffic for all of GTA V";

/// Name of the rule that blocks the game's outbound UDP traffic.
pub const FILTER_NAME_EMPTY_SESSION_OUT: &'static str =
    "[GTA Tools] Block outbound UDP traffic for all of GTA V";

/// Milliseconds after which the block is lifted.
pub const INTERVAL: u64 = 10000;

/// Seconds after which the block is lifted, for the countdown on display.
pub const INTERVAL_SECONDS: u64 = 10;

/// Whether the game's traffic is blocked.
pub enum Session {
    /// The traffic flows.
    Normal,
    /// The traffic has been blocked since `since`.
    Suspended { since: nat },
}

/// What an [`EmptySession`] stands for.
pub struct EmptySessionView {
    /// Whether the traffic is blocked, and since when.
    pub session: Session,
    /// The countdown on display while it is.
    pub countdown: CountdownView,
}

impl EmptySessionView {
    /// The feature at rest after start-up: the traffic flows, and the
    /// countdown stands at [`INTERVAL_SECONDS`], untouched.
    pub open spec fn rest() -> EmptySessionView {
        EmptySessionView {
            session: Session::Normal,
            countdown: CountdownView::fresh(INTERVAL_SECONDS as nat),
        }
    }

    /// The states between two polls.
    pub open spec fn wf(self) -> bool {
        self.countdown.wf()
    }

    /// Whether the block is to be lifted at `now`: the traffic is blocked and
    /// has been for [`INTERVAL`] or longer.
    pub open spec fn expires_at(self, now: nat) -> bool {
        self.session matches Session::Suspended { since } && now >= since + INTERVAL
    }

    /// The state after the poll at `now`: the countdown runs while the traffic
    /// is blocked and is put back while it flows, and a block that has run
    /// its time ends.
    pub open spec fn run_timers(self, now: nat) -> EmptySessionView {
        EmptySessionView {
            session: if self.expires_at(now) {
                Session::Normal
            } else {
                self.session
            },
            countdown: match self.session {
                Session::Suspended { .. } => self.countdown.count(now),
                Session::Normal => CountdownView::fresh(self.countdown.original),
            },
        }
    }

    /// The state after the traffic was blocked at `now`.
    pub open spec fn suspend(self, now: nat) -> EmptySessionView {
        EmptySessionView { session: Session::Suspended { since: now }, ..self }
    }

    /// Whether a click on the button at `now` blocks the traffic: the traffic
    /// flows, and `processes` holds a game whose path is known.
    pub open spec fn accepts(self, processes: Seq<ProcessView>) -> bool {
        self.session is Normal && spec_activate(processes) is Some
    }

    /// The state after a click on the button at `now`.
    pub open spec fn request(self, processes: Seq<ProcessView>, now: nat) -> EmptySessionView {
        if self.accepts(processes) {
            self.suspend(now)
        } else {
            self
        }
    }
}

/// The timers of the feature.
#[derive(Debug)]
pub struct EmptySession {
    /// Whether the traffic is blocked; the button is disabled while it is.
    pub disabled: bool,
    /// When the traffic was blocked, in milliseconds.
    pub interval: u64,
    /// The countdown on display while the traffic is blocked.
    pub countdown: Countdown,
}

impl View for EmptySession {
    type V = EmptySessionView;

    open spec fn view(&self) -> EmptySessionView {
        EmptySessionView {
            session: if self.disabled {
                Session::Suspended { since: self.interval as nat }
            } else {
                Session::Normal
            },
            countdown: self.countdown@,
        }
    }
}

impl Default for EmptySession {
    /// The feature at rest: the traffic flows.
    fn default() -> (session: EmptySession)
        ensures
            session@ == EmptySessionView::rest(),
            session.wf(),
    {
        EmptySession { disabled: false, interval: 0, countdown: Countdown::new(INTERVAL_SECONDS) }
    }
}

impl EmptySession {
    /// See [`EmptySessionView::wf`].
    pub open spec fn wf(&self) -> bool {
        self@.wf()
    }

    /// Tests [`EmptySession::wf`], for callers that fill in the fields
    /// themselves.
    pub fn is_valid(&self) -> (valid: bool)
        ensures
            valid == self.wf(),
    {
        self.countdown.is_valid()
    }

    /// Records that the traffic was blocked at `now`.
    pub fn suspend(&mut self, now: u64)
        ensures
            final(self)@ == old(self)@.suspend(now as nat),
    {
        self.interval = now;
        self.disabled = true;
    }

    /// Handles a click on the button at `now`. While the traffic flows and
    /// the snapshot holds a game whose path is known, the click blocks the
    /// traffic: the rules to install are returned, and the time of the block
    /// runs from `now`. Any other click does nothing.
    pub fn request(&mut self, system_info: &SystemInfo, now: u64) -> (rules: Option<Vec<Rule>>)
        ensures
            rules_view(rules) == if old(self)@.accepts(system_info@) {
                spec_activate(system_info@)
            } else {
                None
            },
            final(self)@ == old(self)@.request(system_info@, now as nat),
    {
        if self.disabled {
            return None;
        }
        let rules = activate(system_info);
        if rules.is_some() {
            self.suspend(now);
        }
        rules
    }

    /// Polls the timers at `now` (milliseconds on a monotonic clock). Returns
    /// whether the block is to be lifted now; where it is, the feature is at
    /// rest again, whether or not lifting the block succeeds.
    pub fn run_timers(&mut self, now: u64) -> (deactivate: bool)
        requires
            old(self).wf(),
        ensures
            deactivate == old(self)@.expires_at(now as nat),
            final(self)@ == old(self)@.run_timers(now as nat),
            final(self).wf(),
    {
        if self.disabled {
            self.countdown.count(now);
        } else {
            self.countdown.reset();
        }
        if self.disabled && millis_since(self.interval, now) >= INTERVAL {
            self.disabled = false;
            return true;
        }
        false
    }

    /// Ends the feature when the application shuts down. The block is to be
    /// lifted whatever the state and whatever time is left: the answer is
    /// always `true`, and the feature is at rest afterwards.
    pub fn shutdown(&mut self) -> (deactivate: bool)
        ensures
            deactivate,
            final(self)@ == (EmptySessionView { session: Session::Normal, ..old(self)@ }),
    {
        self.disabled = false;
        true
    }
}

/// Automatic expiry: a block set at `start` is lifted by the first poll that
/// comes [`INTERVAL`] or more after `start`, which leaves the feature at
/// rest; no later poll lifts anything again.
pub proof fn lemma_block_expires(session: EmptySessionView, start: nat, now: nat)
    requires
        now >= start + INTERVAL,
    ensures
        session.suspend(start).expires_at(now),
        session.suspend(start).run_timers(now).session is Normal,
        forall|later: nat| !session.suspend(start).run_timers(now).expires_at(later),
{
}

/// Until [`INTERVAL`] has passed, the polls leave the block in place.
pub proof fn lemma_block_holds(session: EmptySessionView, start: nat, now: nat)
    requires
        now < start + INTERVAL,
    ensures
        !session.suspend(start).expires_at(now),
        session.suspend(start).run_timers(now).session == (Session::Suspended { since: start }),
{
}

/// While the traffic flows, the polls lift nothing and keep the countdown at
/// its full value, untouched.
pub proof fn lemma_rest_is_stable(session: EmptySessionView, now: nat)
    requires
        session.session is Normal,
    ensures
        !session.expires_at(now),
        session.run_timers(now).session is Normal,
        session.run_timers(now).countdown == CountdownView::fresh(session.countdown.original),
{
}

/// The two rules that block the UDP traffic of the program at `exe_path`,
/// inbound and outbound.
pub open spec fn spec_rules(exe_path: Seq<char>) -> Seq<RuleView> {
    seq![
        RuleView {
            name: FILTER_NAME_EMPTY_SESSION_IN@,
            mode: RuleModeView::Executable(exe_path),
            direction: RuleDirection::In,
            protocol: RuleProtocol::Udp,
        },
        RuleView {
            name: FILTER_NAME_EMPTY_SESSION_OUT@,
            mode: RuleModeView::Executable(exe_path),
            direction: RuleDirection::Out,
            protocol: RuleProtocol::Udp,
        },
    ]
}

/// The rules to install for a snapshot of the processes: those for the first
/// process that runs the game, where its path is known.
pub open spec fn spec_activate(processes: Seq<ProcessView>) -> Option<Seq<RuleView>> {
    match first_game(processes) {
        Some(game) => match game.exe {
            Some(path) => Some(spec_rules(path)),
            None => None,
        },
        None => None,
    }
}

/// What a list of rules stands for, where there is one.
pub open spec fn rules_view(rules: Option<Vec<Rule>>) -> Option<Seq<RuleView>> {
    match rules {
        Some(rules) => Some(rules@.map_values(|r: Rule| r@)),
        None => None,
    }
}

/// The rules to install to empty the session: the inbound and the outbound
/// block for the running game. `None` where the snapshot holds no game whose
/// path is known; nothing is to be blocked then.
pub fn activate(system_info: &SystemInfo) -> (rules: Option<Vec<Rule>>)
    ensures
        rules_view(rules) == spec_activate(system_info@),
{
    match system_info.get_game_exe_path() {
        Some(exe_path) => {
            let mut rules: Vec<Rule> = Vec::new();
            rules.push(
                Rule::for_executable(
                    FILTER_NAME_EMPTY_SESSION_IN,
                    exe_path,
                    RuleDirection::In,
                    RuleProtocol::Udp,
                ),
            );
            rules.push(
                Rule::for_executable(
                    FILTER_NAME_EMPTY_SESSION_OUT,
                    exe_path,
                    RuleDirection::Out,
                    RuleProtocol::Udp,
                ),
            );
            assert(rules@.map_values(|r: Rule| r@) =~= spec_rules(exe_path@));
            Some(rules)
        },
        None => None,
    }
}

/// The names of the rules to remove to lift the block, inbound first.
pub fn deactivate() -> (names: Vec<&'static str>)
    ensures
        names@.len() == 2,
        names@[0]@ == FILTER_NAME_EMPTY_SESSION_IN@,
        names@[1]@ == FILTER_NAME_EMPTY_SESSION_OUT@,
{
    let mut names: Vec<&'static str> = Vec::new();
    names.push(FILTER_NAME_EMPTY_SESSION_IN);
    names.push(FILTER_NAME_EMPTY_SESSION_OUT);
    names
}

} // verus!
