//! Blocking the game's network access, or its access to the save server only.

use crate::gui::settings::BlockMethod;
use crate::util::firewall::Rule;
use crate::util::firewall::RuleDirection;
use crate::util::firewall::RuleModeView;
use crate::util::firewall::RuleProtocol;
use crate::util::firewall::RuleView;
use crate::util::interval::should_fire;
use crate::util::interval::spec_should_fire;
use crate::util::system_info::first_game;
use crate::util::system_info::SystemInfo;
use vstd::prelude::*;

verus! {

/// Name of the rule that blocks all outbound traffic of the game.
pub const FILTER_NAME_EXE: &'static str = "[GTA Tools] Block outbound traffic for all of GTA V";

/// Name of the rule that blocks the outbound traffic to the save server.
pub const FILTER_NAME_SAVE_SERVER: &'static str =
    "[GTA Tools] Block outbound traffic to Rockstar save server";

/// The rule that blocks all outbound traffic of the program at `exe_path`.
pub open spec fn spec_exe_rule(exe_path: Seq<char>) -> RuleView {
    RuleView {
        name: FILTER_NAME_EXE@,
        mode: RuleModeView::Executable(exe_path),
        direction: RuleDirection::Out,
        protocol: RuleProtocol::Any,
    }
}

/// The rule that blocks all outbound traffic to `save_server_ip`.
pub open spec fn spec_save_server_rule(save_server_ip: Seq<char>) -> RuleView {
    RuleView {
        name: FILTER_NAME_SAVE_SERVER@,
        mode: RuleModeView::Address(save_server_ip),
        direction: RuleDirection::Out,
        protocol: RuleProtocol::Any,
    }
}

/// Which of the two blocks gets in the way of `block_method`, given which of
/// them the firewall holds: the other one, where it is in place.
pub open spec fn spec_conflict(
    block_method: BlockMethod,
    save_server_blocked: bool,
    exe_blocked: bool,
) -> Option<BlockMethod> {
    match block_method {
        BlockMethod::EntireGame => if save_server_blocked {
            Some(BlockMethod::SaveServer)
        } else {
            None
        },
        BlockMethod::SaveServer => if exe_blocked {
            Some(BlockMethod::EntireGame)
        } else {
            None
        },
    }
}

/// The name of the rule that implements `block_method`.
pub open spec fn spec_filter_name(block_method: BlockMethod) -> Seq<char> {
    match block_method {
        BlockMethod::EntireGame => FILTER_NAME_EXE@,
        BlockMethod::SaveServer => FILTER_NAME_SAVE_SERVER@,
    }
}

/// Milliseconds for which a failed attempt shows in the indicator.
pub const FAILED_INTERVAL: u64 = 3000;

/// What the indicator beside the network block shows.
#[derive(Clone, Copy, Debug, PartialEq, Eq, Structural)]
pub enum BlockedStatus {
    /// The block is in place.
    Blocked,
    /// The last attempt to set or lift the block failed a moment ago.
    Failed,
    /// No block is in place.
    Unblocked,
}

/// Whether the game's network access is blocked, as last seen in the
/// firewall, and whether the last attempt to change that failed.
#[derive(Clone, Copy, Debug)]
pub struct GameNetworking {
    /// Whether a block is in place.
    pub blocked: bool,
    /// When the last attempt failed, for as long as the failure shows.
    pub failed: Option<u64>,
}

impl GameNetworking {
    /// What the indicator shows: the failure while there is one, and
    /// otherwise whether the block is in place.
    pub open spec fn spec_status(self) -> BlockedStatus {
        if self.failed is Some {
            BlockedStatus::Failed
        } else if self.blocked {
            BlockedStatus::Blocked
        } else {
            BlockedStatus::Unblocked
        }
    }

    /// The state after the poll at `now`: a failure that has shown for
    /// [`FAILED_INTERVAL`] shows no longer.
    pub open spec fn spec_run_timers(self, now: nat) -> GameNetworking {
        match self.failed {
            Some(at) => if spec_should_fire(at as nat, FAILED_INTERVAL as nat, now) {
                GameNetworking { failed: None, ..self }
            } else {
                self
            },
            None => self,
        }
    }

    /// The state at start-up, from what the firewall holds: blocked where
    /// either rule is in place, and no failure to show.
    pub fn new(save_server_blocked: bool, exe_blocked: bool) -> (networking: GameNetworking)
        ensures
            networking == (GameNetworking {
                blocked: save_server_blocked || exe_blocked,
                failed: None,
            }),
    {
        GameNetworking {
            blocked: if save_server_blocked {
                save_server_blocked
            } else {
                exe_blocked
            },
            failed: None,
        }
    }

    /// What the indicator shows.
    pub fn status(&self) -> (status: BlockedStatus)
        ensures
            status == self.spec_status(),
    {
        if self.failed.is_some() {
            BlockedStatus::Failed
        } else if self.blocked {
            BlockedStatus::Blocked
        } else {
            BlockedStatus::Unblocked
        }
    }

    /// Records that an attempt to set or lift the block failed at `now`:
    /// the failure shows from now on, and what is known of the block stays.
    pub fn fail(&mut self, now: u64)
        ensures
            *final(self) == (GameNetworking { failed: Some(now), ..*old(self) }),
    {
        self.failed = Some(now);
    }

    /// Polls the indicator at `now` (milliseconds on a monotonic clock): a
    /// failure that has shown for [`FAILED_INTERVAL`] shows no longer.
    pub fn run_timers(&mut self, now: u64)
        ensures
            *final(self) == old(self).spec_run_timers(now as nat),
    {
        match self.failed {
            Some(at) => {
                if should_fire(at, FAILED_INTERVAL, now) {
                    self.failed = None;
                }
            },
            None => {},
        }
    }

    /// The name of the rule that implements `block_method`.
    pub fn filter_name(block_method: BlockMethod) -> (name: &'static str)
        ensures
            name@ == spec_filter_name(block_method),
    {
        match block_method {
            BlockMethod::EntireGame => FILTER_NAME_EXE,
            BlockMethod::SaveServer => FILTER_NAME_SAVE_SERVER,
        }
    }

    /// The rule to install to block the whole game: all outbound traffic of
    /// the running game. `None` where the snapshot holds no game whose path
    /// is known; nothing is to be blocked then.
    pub fn block_exe(system_info: &SystemInfo) -> (rule: Option<Rule>)
        ensures
            match rule {
                Some(rule) => first_game(system_info@) matches Some(game) && game.exe matches Some(
                    path,
                ) && rule@ == spec_exe_rule(path),
                None => first_game(system_info@) matches Some(game) ==> game.exe is None,
            },
    {
        match system_info.get_game_exe_path() {
            Some(exe_path) => Some(
                Rule::for_executable(
                    FILTER_NAME_EXE,
                    exe_path,
                    RuleDirection::Out,
                    RuleProtocol::Any,
                ),
            ),
            None => None,
        }
    }

    /// The name of the rule to remove to unblock the whole game.
    pub fn unblock_exe() -> (name: &'static str)
        ensures
            name@ == FILTER_NAME_EXE@,
    {
        FILTER_NAME_EXE
    }

    /// The rule to install to block the save server at `save_server_ip`.
    pub fn block_save_server(save_server_ip: &str) -> (rule: Rule)
        ensures
            rule@ == spec_save_server_rule(save_server_ip@),
    {
        Rule::for_address(
            FILTER_NAME_SAVE_SERVER,
            save_server_ip,
            RuleDirection::Out,
            RuleProtocol::Any,
        )
    }

    /// The name of the rule to remove to unblock the save server.
    pub fn unblock_save_server() -> (name: &'static str)
        ensures
            name@ == FILTER_NAME_SAVE_SERVER@,
    {
        FILTER_NAME_SAVE_SERVER
    }

    /// Takes in what the firewall holds after a rule was installed or
    /// removed: whether the rule in question is in place. The attempt went
    /// through, so no failure shows any longer.
    pub fn observe(&mut self, rule_in_place: bool)
        ensures
            *final(self) == (GameNetworking { blocked: rule_in_place, failed: None }),
    {
        self.blocked = rule_in_place;
        self.failed = None;
    }

    /// Keeps the two blocks from being in place together. Given the method
    /// that the user has chosen and which of the two rules the firewall
    /// holds, returns the method whose rule is to be removed: the other one,
    /// where it is in place. The state then follows the rule of the chosen
    /// method; where nothing is to be removed, it stays as it is.
    pub fn ensure_block_exclusivity(
        &mut self,
        block_method: BlockMethod,
        save_server_blocked: bool,
        exe_blocked: bool,
    ) -> (unblock: Option<BlockMethod>)
        ensures
            unblock == spec_conflict(block_method, save_server_blocked, exe_blocked),
            unblock is Some ==> unblock != Some(block_method),
            final(self).blocked == match unblock {
                Some(_) => match block_method {
                    BlockMethod::EntireGame => exe_blocked,
                    BlockMethod::SaveServer => save_server_blocked,
                },
                None => old(self).blocked,
            },
            final(self).failed == old(self).failed,
    {
        match block_method {
            BlockMethod::EntireGame => {
                if save_server_blocked {
                    self.blocked = exe_blocked;
                    return Some(BlockMethod::SaveServer);
                }
            },
            BlockMethod::SaveServer => {
                if exe_blocked {
                    self.blocked = save_server_blocked;
                    return Some(BlockMethod::EntireGame);
                }
            },
        }
        None
    }
}

/// A failed attempt shows at once and for less than [`FAILED_INTERVAL`]:
/// the polls before that leave it on display, and the first poll from then
/// on puts back what is known of the block.
pub proof fn lemma_failure_shows_for_a_while(networking: GameNetworking, at: u64, now: nat)
    ensures
        (GameNetworking { failed: Some(at), ..networking }).spec_status() == BlockedStatus::Failed,
        now < at + FAILED_INTERVAL ==> (GameNetworking {
            failed: Some(at),
            ..networking
        }).spec_run_timers(now).spec_status() == BlockedStatus::Failed,
        now >= at + FAILED_INTERVAL ==> (GameNetworking {
            failed: Some(at),
            ..networking
        }).spec_run_timers(now) == (GameNetworking { failed: None, ..networking }),
{
}

} // verus!
