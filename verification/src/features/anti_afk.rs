//! Keeping the game from marking the player as idle.

use crate::util::interval::should_fire;
use crate::util::interval::spec_should_fire;
use vstd::prelude::*;

verus! {

/// Milliseconds between two rounds of key presses.
pub const INTERVAL: u64 = 60000;

/// The keys that a round presses.
#[derive(Clone, Copy, Debug, PartialEq, Eq, Structural)]
pub enum Key {
    /// The 4 on the number pad.
    Numpad4,
    /// The 6 on the number pad.
    Numpad6,
}

/// One keyboard event to inject.
#[derive(Clone, Copy, Debug, PartialEq, Eq, Structural)]
pub struct KeyInput {
    /// The key that moves.
    pub key: Key,
    /// Whether the key goes up; it goes down otherwise.
    pub key_up: bool,
}

/// The keys of one round, in the order in which they are pressed.
pub open spec fn press_keys() -> Seq<Key> {
    seq![Key::Numpad4, Key::Numpad6]
}

/// The events that press and release each of `keys` in turn.
pub open spec fn spec_send(keys: Seq<Key>) -> Seq<KeyInput> {
    Seq::new(
        2 * keys.len(),
        |i: int|
            KeyInput { key: keys[i / 2], key_up: i % 2 == 1 },
    )
}

/// Lays out the events for pressing `keys`: for each key in turn, down and
/// then up.
pub fn send(keys: &Vec<Key>) -> (inputs: Vec<KeyInput>)
    ensures
        inputs@ == spec_send(keys@),
{
    let mut inputs: Vec<KeyInput> = Vec::new();
    let mut index: usize = 0;
    while index < keys.len()
        invariant
            index <= keys.len(),
            inputs@ == spec_send(keys@.take(index as int)),
        decreases keys.len() - index,
    {
        let key = keys[index];
        inputs.push(KeyInput { key, key_up: false });
        inputs.push(KeyInput { key, key_up: true });
        index += 1;
        assert(inputs@ =~= spec_send(keys@.take(index as int)));
    }
    assert(keys@.take(index as int) == keys@);
    inputs
}

/// The anti-idle feature: while switched on, a round of key presses every
/// [`INTERVAL`].
#[derive(Clone, Copy, Debug, PartialEq, Eq, Structural)]
pub struct AntiAfk {
    /// Whether the feature is switched on.
    pub enabled: bool,
    /// When the last round was sent, in milliseconds.
    pub interval: u64,
}

impl AntiAfk {
    /// Whether a poll at `now` sends a round: a round may be sent and is due.
    pub open spec fn sends(
        self,
        window_focused: bool,
        any_key_pressed: bool,
        cursor_visible: bool,
        now: nat,
    ) -> bool {
        &&& window_focused && !any_key_pressed && !cursor_visible
        &&& self.enabled
        &&& spec_should_fire(self.interval as nat, INTERVAL as nat, now)
    }

    /// The feature switched off, its interval running from `now`.
    pub fn new(now: u64) -> (anti_afk: AntiAfk)
        ensures
            anti_afk == (AntiAfk { enabled: false, interval: now }),
    {
        AntiAfk { enabled: false, interval: now }
    }

    /// Whether a round may be sent at all: the game's window has the focus,
    /// the player holds none of the keys of a round, and the cursor is hidden.
    pub fn can_activate(
        &self,
        window_focused: bool,
        any_key_pressed: bool,
        cursor_visible: bool,
    ) -> (can: bool)
        ensures
            can == (window_focused && !any_key_pressed && !cursor_visible),
    {
        window_focused && !any_key_pressed && !cursor_visible
    }

    /// Whether a round is due at `now`: the feature is on and [`INTERVAL`] has
    /// passed since the last round.
    pub fn should_activate(&self, now: u64) -> (due: bool)
        ensures
            due == (self.enabled && spec_should_fire(
                self.interval as nat,
                INTERVAL as nat,
                now as nat,
            )),
    {
        self.enabled && should_fire(self.interval, INTERVAL, now)
    }

    /// Sends a round at `now`: returns the events to inject and starts the
    /// interval anew, so that no round is due before `now + INTERVAL`.
    pub fn activate(&mut self, now: u64) -> (inputs: Vec<KeyInput>)
        ensures
            inputs@ == spec_send(press_keys()),
            *final(self) == (AntiAfk { interval: now, ..*old(self) }),
            forall|next: nat|
                next < now + INTERVAL ==> !spec_should_fire(
                    final(self).interval as nat,
                    INTERVAL as nat,
                    next,
                ),
    {
        let mut keys: Vec<Key> = Vec::new();
        keys.push(Key::Numpad4);
        keys.push(Key::Numpad6);
        assert(keys@ =~= press_keys());
        self.interval = now;
        send(&keys)
    }

    /// Polls the feature at `now` with what the system shows of window, keys
    /// and cursor. Where a round may be sent and is due, it is sent as by
    /// [`AntiAfk::activate`]; otherwise nothing is sent and nothing changes.
    pub fn poll(
        &mut self,
        window_focused: bool,
        any_key_pressed: bool,
        cursor_visible: bool,
        now: u64,
    ) -> (inputs: Vec<KeyInput>)
        ensures
            old(self).sends(window_focused, any_key_pressed, cursor_visible, now as nat) ==> {
                &&& inputs@ == spec_send(press_keys())
                &&& *final(self) == (AntiAfk { interval: now, ..*old(self) })
            },
            !old(self).sends(window_focused, any_key_pressed, cursor_visible, now as nat) ==> {
                &&& inputs@ == Seq::<KeyInput>::empty()
                &&& *final(self) == *old(self)
            },
    {
        if self.can_activate(window_focused, any_key_pressed, cursor_visible)
            && self.should_activate(now) {
            self.activate(now)
        } else {
            Vec::new()
        }
    }
}

} // verus!
