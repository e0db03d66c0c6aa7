//! Force-closing the game behind a two-click confirmation.

use crate::util::clock::millis_since;
use crate::util::system_info::game_pids;
use crate::util::system_info::Process;
use crate::util::system_info::SystemInfo;
use vstd::prelude::*;
use vstd::string::StringExecFns;

verus! {

/// Milliseconds within which the second click has to follow the first.
pub const INTERVAL: u64 = 3000;

/// Text of the button while nothing is pending.
pub const BUTTON_TEXT: &'static str = "Force close game";

/// Text of the button while it waits for the confirming click.
pub const BUTTON_TEXT_ARMED: &'static str = "Are you sure?";

/// The two states of the confirmation.
pub enum Gate {
    /// Nothing is pending.
    Idle,
    /// A first click came at `since` and waits for its confirmation.
    Armed { since: nat },
}

/// What a [`ForceClose`] stands for.
pub struct ForceCloseView {
    /// Whether a click is pending, and since when.
    pub gate: Gate,
    /// Text of the button.
    pub button_text: Seq<char>,
    /// Whether the pending click came in the poll that is being handled.
    pub just_armed: bool,
}

impl ForceCloseView {
    /// The state in which nothing is pending.
    pub open spec fn idle() -> ForceCloseView {
        ForceCloseView { gate: Gate::Idle, button_text: BUTTON_TEXT@, just_armed: false }
    }

    /// The state in which a click at `since` waits for its confirmation.
    pub open spec fn armed(since: nat) -> ForceCloseView {
        ForceCloseView {
            gate: Gate::Armed { since },
            button_text: BUTTON_TEXT_ARMED@,
            just_armed: false,
        }
    }

    /// The states between two polls: no click counts as having come in a poll
    /// that is over.
    pub open spec fn wf(self) -> bool {
        !self.just_armed
    }

    /// Whether the poll at `now`, with the button clicked or not, has the game
    /// closed: a click is pending from an earlier poll, its window has not
    /// run out, and the button is clicked again.
    pub open spec fn fires(self, clicked: bool, now: nat) -> bool {
        &&& self.gate matches Gate::Armed { since }
        &&& now < since + INTERVAL
        &&& clicked
        &&& !self.just_armed
    }

    /// The state after the poll at `now`.
    pub open spec fn prompt(self, clicked: bool, now: nat) -> ForceCloseView {
        match self.gate {
            Gate::Idle => if clicked {
                Self::armed(now)
            } else {
                ForceCloseView { just_armed: false, ..self }
            },
            Gate::Armed { since } => if now >= since + INTERVAL || (clicked && !self.just_armed) {
                Self::idle()
            } else {
                ForceCloseView { just_armed: false, ..self }
            },
        }
    }
}

/// The confirmation gate in front of force-closing the game: a first click
/// arms it, a second click within [`INTERVAL`] confirms, and an armed gate
/// that is left alone disarms itself.
#[derive(Debug)]
pub struct ForceClose {
    /// Text to show on the button.
    pub button_text: String,
    timer: u64,
    counting: bool,
    current_frame: bool,
}

impl View for ForceClose {
    type V = ForceCloseView;

    closed spec fn view(&self) -> ForceCloseView {
        ForceCloseView {
            gate: if self.counting {
                Gate::Armed { since: self.timer as nat }
            } else {
                Gate::Idle
            },
            button_text: self.button_text@,
            just_armed: self.current_frame,
        }
    }
}

impl Default for ForceClose {
    /// A gate with nothing pending.
    fn default() -> (gate: ForceClose)
        ensures
            gate@ == ForceCloseView::idle(),
            gate.wf(),
    {
        ForceClose {
            button_text: String::from_str(BUTTON_TEXT),
            timer: 0,
            counting: false,
            current_frame: false,
        }
    }
}

impl ForceClose {
    /// See [`ForceCloseView::wf`].
    pub open spec fn wf(&self) -> bool {
        self@.wf()
    }

    /// Whether the pending click came in the poll that is being handled;
    /// never so between two polls.
    pub fn current_frame(&self) -> (just_armed: bool)
        ensures
            just_armed == self@.just_armed,
    {
        self.current_frame
    }

    /// Whether a click waits for its confirmation.
    pub fn counting(&self) -> (armed: bool)
        ensures
            armed == (self@.gate is Armed),
    {
        self.counting
    }

    /// Polls the confirmation at `now` (milliseconds on a monotonic clock) with the
    /// state of the button in this poll. Returns whether the game is to be
    /// closed now.
    ///
    /// The poll in which the first click comes arms it and never
    /// confirms it. An armed gate whose window has run out goes back to idle,
    /// clicked or not, and a click in that poll does not arm it again.
    pub fn prompt(&mut self, force_close_button_clicked: bool, now: u64) -> (fire: bool)
        ensures
            fire == old(self)@.fires(force_close_button_clicked, now as nat),
            final(self)@ == old(self)@.prompt(force_close_button_clicked, now as nat),
            final(self).wf(),
    {
        let mut fire = false;
        if force_close_button_clicked && !self.counting {
            self.button_text = String::from_str(BUTTON_TEXT_ARMED);
            self.timer = now;
            self.counting = true;
            self.current_frame = true;
        }
        if self.counting && millis_since(self.timer, now) >= INTERVAL {
            self.reset();
        } else if force_close_button_clicked && !self.current_frame {
            fire = true;
            self.reset();
        }
        self.finish_current_frame();
        fire
    }

    /// Puts the confirmation back to idle.
    pub fn reset(&mut self)
        ensures
            final(self)@ == ForceCloseView::idle(),
    {
        *self = ForceClose::default();
    }

    /// Ends the poll: a click that came in it counts as pending from now on.
    pub fn finish_current_frame(&mut self)
        ensures
            final(self)@ == (ForceCloseView { just_armed: false, ..old(self)@ }),
    {
        if self.current_frame {
            self.current_frame = false;
        }
    }
}

/// The processes to kill when the game is force-closed: every process of the
/// snapshot that runs the game.
pub fn activate(system_info: &SystemInfo) -> (pids: Vec<u32>)
    ensures
        pids@ == game_pids(system_info@),
{
    let processes = system_info.processes();
    let mut pids: Vec<u32> = Vec::new();
    let mut index: usize = 0;
    while index < processes.len()
        invariant
            index <= processes.len(),
            processes@.map_values(|p: Process| p@) == system_info@,
            pids@ == game_pids(system_info@.take(index as int)),
        decreases processes.len() - index,
    {
        let process = &processes[index];
        assert(system_info@.take(index + 1).last() == process@);
        assert(system_info@.take(index + 1).drop_last() == system_info@.take(index as int));
        if process.is_game() {
            pids.push(process.pid());
        }
        index += 1;
    }
    assert(system_info@.take(index as int) == system_info@);
    pids
}

/// A first click on an idle gate arms it and closes nothing.
pub proof fn lemma_first_click_arms(gate: ForceCloseView, now: nat)
    requires
        gate.wf(),
        gate.gate is Idle,
    ensures
        !gate.fires(true, now),
        gate.prompt(true, now) == ForceCloseView::armed(now),
{
}

/// No click confirms itself: a poll that finds nothing pending closes nothing,
/// and neither does one that finds the pending click marked as its own.
pub proof fn lemma_no_self_confirmation(gate: ForceCloseView, clicked: bool, now: nat)
    requires
        gate.gate is Idle || gate.just_armed,
    ensures
        !gate.fires(clicked, now),
{
}

/// An armed gate that is polled without a click before its window has run out
/// stays as it is.
pub proof fn lemma_waits_for_confirmation(since: nat, now: nat)
    requires
        now < since + INTERVAL,
    ensures
        !ForceCloseView::armed(since).fires(false, now),
        ForceCloseView::armed(since).prompt(false, now) == ForceCloseView::armed(since),
{
}

/// A second click in a later poll, before the window has run out, closes the
/// game and leaves nothing pending; the poll after that closes nothing, clicked
/// or not.
pub proof fn lemma_confirmed_in_time(gate: ForceCloseView, first: nat, second: nat)
    requires
        gate.wf(),
        gate.gate is Idle,
        second < first + INTERVAL,
    ensures
        gate.prompt(true, first).fires(true, second),
        gate.prompt(true, first).prompt(true, second) == ForceCloseView::idle(),
        forall|clicked: bool, third: nat|
            !gate.prompt(true, first).prompt(true, second).fires(clicked, third),
{
}

/// A gate whose window has run out goes back to idle and closes nothing,
/// whether the poll that finds it so brings a click or not.
pub proof fn lemma_window_runs_out(gate: ForceCloseView, first: nat, later: nat, clicked: bool)
    requires
        gate.wf(),
        gate.gate is Idle,
        later >= first + INTERVAL,
    ensures
        !gate.prompt(true, first).fires(clicked, later),
        gate.prompt(true, first).prompt(clicked, later) == ForceCloseView::idle(),
{
}

/// Every poll ends in a state between polls.
pub proof fn lemma_prompt_keeps_wf(gate: ForceCloseView, clicked: bool, now: nat)
    ensures
        gate.prompt(clicked, now).wf(),
{
}

} // verus!
