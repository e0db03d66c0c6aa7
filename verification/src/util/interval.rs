//! The interval gate: an action that may happen only once a set time has
//! passed since it last happened.

use crate::util::clock::millis_since;
use vstd::prelude::*;

verus! {

/// Whether an action that last happened at `last_fired` may happen at `now`:
/// `interval` or more has passed since. A clock that went back counts as no
/// time passed.
pub open spec fn spec_should_fire(last_fired: nat, interval: nat, now: nat) -> bool {
    if now >= last_fired {
        now - last_fired >= interval
    } else {
        interval == 0
    }
}

/// Computes [`spec_should_fire`]; times and interval are in milliseconds.
pub fn should_fire(last_fired: u64, interval: u64, now: u64) -> (fire: bool)
    ensures
        fire == spec_should_fire(last_fired as nat, interval as nat, now as nat),
{
    millis_since(last_fired, now) >= interval
}

/// An interval gate is shut for every elapsed time below the interval and open from
/// the interval on.
pub proof fn lemma_fires_from_interval_on(last_fired: nat, interval: nat, passed: nat)
    ensures
        passed < interval ==> !spec_should_fire(last_fired, interval, last_fired + passed),
        passed >= interval ==> spec_should_fire(last_fired, interval, last_fired + passed),
{
}

/// Once the action has happened at `now` and the caller has set the reference
/// point to `now`, it is shut again: a check at once is refused, and so
/// is every check before a full interval has passed.
pub proof fn lemma_no_refire(interval: nat, now: nat, next: nat)
    requires
        interval > 0,
        next < now + interval,
    ensures
        !spec_should_fire(now, interval, now),
        !spec_should_fire(now, interval, next),
{
}

} // verus!
