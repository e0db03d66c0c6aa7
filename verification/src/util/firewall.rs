//! Blocking rules for the system firewall, as plain data. Installing and
//! removing them is left to the caller.

use vstd::prelude::*;

verus! {

/// What a [`RuleMode`] stands for.
pub enum RuleModeView {
    /// Traffic of one program, by the full path of its executable.
    Executable(Seq<char>),
    /// Traffic with one remote address.
    Address(Seq<char>),
}

/// What a rule matches.
#[derive(Debug)]
pub enum RuleMode {
    /// Traffic of one program, by the full path of its executable.
    Executable(String),
    /// Traffic with one remote address.
    Address(String),
}

impl View for RuleMode {
    type V = RuleModeView;

    open spec fn view(&self) -> RuleModeView {
        match self {
            RuleMode::Executable(path) => RuleModeView::Executable(path@),
            RuleMode::Address(ip) => RuleModeView::Address(ip@),
        }
    }
}

/// The direction of the traffic that a rule blocks.
#[derive(Clone, Copy, Debug, PartialEq, Eq, Structural)]
pub enum RuleDirection {
    /// Inbound traffic.
    In,
    /// Outbound traffic.
    Out,
}

/// The protocol of the traffic that a rule blocks.
#[derive(Clone, Copy, Debug, PartialEq, Eq, Structural)]
pub enum RuleProtocol {
    /// Every protocol.
    Any,
    /// TCP only.
    Tcp,
    /// UDP only.
    Udp,
}

/// What a [`Rule`] stands for.
pub struct RuleView {
    /// The name under which the firewall lists the rule.
    pub name: Seq<char>,
    /// What the rule matches.
    pub mode: RuleModeView,
    /// The direction that it blocks.
    pub direction: RuleDirection,
    /// The protocol that it blocks.
    pub protocol: RuleProtocol,
}

/// A blocking rule. The firewall holds at most one rule of a name: to add a
/// rule is to replace the one of the same name.
#[derive(Debug)]
pub struct Rule {
    /// The name under which the firewall lists the rule.
    pub name: String,
    /// What the rule matches.
    pub mode: RuleMode,
    /// The direction that it blocks.
    pub direction: RuleDirection,
    /// The protocol that it blocks.
    pub protocol: RuleProtocol,
}

impl View for Rule {
    type V = RuleView;

    open spec fn view(&self) -> RuleView {
        RuleView {
            name: self.name@,
            mode: self.mode@,
            direction: self.direction,
            protocol: self.protocol,
        }
    }
}

impl Rule {
    /// The rule of the given name that blocks the traffic of the program at
    /// `exe_path`.
    pub fn for_executable(
        name: &str,
        exe_path: &str,
        direction: RuleDirection,
        protocol: RuleProtocol,
    ) -> (rule: Rule)
        ensures
            rule@ == (RuleView {
                name: name@,
                mode: RuleModeView::Executable(exe_path@),
                direction,
                protocol,
            }),
    {
        Rule {
            name: name.to_owned(),
            mode: RuleMode::Executable(exe_path.to_owned()),
            direction,
            protocol,
        }
    }

    /// The rule of the given name that blocks the traffic with the address
    /// `ip`.
    pub fn for_address(
        name: &str,
        ip: &str,
        direction: RuleDirection,
        protocol: RuleProtocol,
    ) -> (rule: Rule)
        ensures
            rule@ == (RuleView {
                name: name@,
                mode: RuleModeView::Address(ip@),
                direction,
                protocol,
            }),
    {
        Rule { name: name.to_owned(), mode: RuleMode::Address(ip.to_owned()), direction, protocol }
    }
}

} // verus!
