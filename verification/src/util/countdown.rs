//! A restartable countdown that loses one tick per elapsed second.

use crate::util::clock::millis_since;
use crate::util::clock::MILLIS_PER_SECOND;
use crate::util::decimal::decimal;
use crate::util::decimal::to_decimal;
use vstd::prelude::*;

verus! {

/// What a [`Countdown`] stands for.
pub struct CountdownView {
    /// Ticks left before the countdown rolls over.
    pub remaining: nat,
    /// Ticks that a full run starts with.
    pub original: nat,
    /// The text to show for the countdown.
    pub display: Seq<char>,
    /// The time from which the current second is measured, once started.
    pub anchor: nat,
    /// Whether a poll has set the anchor since the last (re)start.
    pub started: bool,
}

impl CountdownView {
    /// A countdown at its full value that no poll has touched yet.
    pub open spec fn fresh(original: nat) -> CountdownView {
        CountdownView {
            remaining: original,
            original,
            display: Seq::empty(),
            anchor: 0,
            started: false,
        }
    }

    /// The states that a countdown can be in between two polls: never above the
    /// full value, and at zero only where the full value is zero and no poll
    /// has touched it.
    pub open spec fn wf(self) -> bool {
        &&& self.remaining <= self.original
        &&& self.remaining == 0 ==> self.original == 0 && !self.started
    }

    /// Whether a poll at `now` consumes a tick: a started countdown whose anchor
    /// lies a full second or more in the past. The poll that starts the
    /// countdown sets the anchor to `now` and so never consumes one.
    pub open spec fn ticks_at(self, now: nat) -> bool {
        self.started && now >= self.anchor + MILLIS_PER_SECOND
    }

    /// The state after a poll at `now`.
    pub open spec fn count(self, now: nat) -> CountdownView {
        let left = if self.ticks_at(now) {
            (self.remaining - 1) as nat
        } else {
            self.remaining
        };
        if left == 0 {
            Self::fresh(self.original)
        } else {
            CountdownView {
                remaining: left,
                original: self.original,
                display: decimal(left),
                anchor: if self.started && !self.ticks_at(now) {
                    self.anchor
                } else {
                    now
                },
                started: true,
            }
        }
    }

    /// The state after one poll at each of `times`, in order.
    pub open spec fn after(self, times: Seq<nat>) -> CountdownView
        decreases times.len(),
    {
        if times.len() == 0 {
            self
        } else {
            self.count(times[0]).after(times.drop_first())
        }
    }
}

/// Polls that lie a second or more apart, the first one a second or more after
/// `anchor`.
pub open spec fn spaced(anchor: nat, times: Seq<nat>) -> bool
    decreases times.len(),
{
    times.len() > 0 ==> times[0] >= anchor + MILLIS_PER_SECOND && spaced(
        times[0],
        times.drop_first(),
    )
}

/// A poll keeps a countdown within its states: the ticks left never exceed
/// the full value and never fall below zero.
pub proof fn lemma_count_keeps_wf(c: CountdownView, now: nat)
    requires
        c.wf(),
    ensures
        c.count(now).wf(),
        0 <= c.count(now).remaining <= c.original,
        c.count(now).original == c.original,
{
}

/// Any run of polls keeps a countdown within its states.
pub proof fn lemma_after_keeps_wf(c: CountdownView, times: Seq<nat>)
    requires
        c.wf(),
    ensures
        c.after(times).wf(),
        0 <= c.after(times).remaining <= c.original,
        c.after(times).original == c.original,
    decreases times.len(),
{
    if times.len() > 0 {
        lemma_count_keeps_wf(c, times[0]);
        lemma_after_keeps_wf(c.count(times[0]), times.drop_first());
    }
}

/// A started countdown that is polled once a second or slower, fewer times
/// than it has ticks left, has lost one tick per poll.
pub proof fn lemma_one_tick_per_second(c: CountdownView, times: Seq<nat>)
    requires
        c.wf(),
        c.started,
        0 < times.len() < c.remaining,
        spaced(c.anchor, times),
    ensures
        c.after(times) == (CountdownView {
            remaining: (c.remaining - times.len()) as nat,
            original: c.original,
            display: decimal((c.remaining - times.len()) as nat),
            anchor: times.last(),
            started: true,
        }),
    decreases times.len(),
{
    let next = c.count(times[0]);
    let rest = times.drop_first();
    if rest.len() > 0 {
        lemma_one_tick_per_second(next, rest);
        assert(rest.last() == times.last());
    } else {
        assert(next.after(rest) == next);
    }
}

/// A started countdown that is polled once a second or slower, as many times
/// as it has ticks left, has rolled over: it is back at its full value,
/// untouched by any poll.
pub proof fn lemma_rollover(c: CountdownView, times: Seq<nat>)
    requires
        c.wf(),
        c.started,
        times.len() == c.remaining,
        spaced(c.anchor, times),
    ensures
        c.after(times) == CountdownView::fresh(c.original),
    decreases times.len(),
{
    let next = c.count(times[0]);
    let rest = times.drop_first();
    if rest.len() > 0 {
        lemma_rollover(next, rest);
    } else {
        assert(next.after(rest) == next);
    }
}

/// One full cycle: a countdown that has been started at its full value and is
/// then polled once a second or slower, as many times as its full value, is
/// back at its full value; in between, the ticks left stay between zero and
/// the full value.
pub proof fn lemma_full_cycle(c: CountdownView, times: Seq<nat>)
    requires
        c.wf(),
        c.started,
        c.remaining == c.original,
        times.len() == c.original,
        spaced(c.anchor, times),
    ensures
        c.after(times).remaining == c.original,
        forall|k: int|
            0 <= k <= times.len() ==> 0 <= (#[trigger] c.after(times.take(k))).remaining
                <= c.original,
{
    lemma_rollover(c, times);
    assert forall|k: int| 0 <= k <= times.len() implies 0 <= (#[trigger] c.after(
        times.take(k),
    )).remaining <= c.original by {
        lemma_after_keeps_wf(c, times.take(k));
    }
}

/// A countdown that no poll has touched yet spends its first poll on setting
/// the anchor: polled once a second or slower, one time more than it has
/// ticks left, it has rolled over to its full value, untouched.
pub proof fn lemma_rollover_from_rest(c: CountdownView, times: Seq<nat>)
    requires
        c.wf(),
        !c.started,
        times.len() == c.remaining + 1,
        spaced(times[0], times.drop_first()),
    ensures
        c.after(times) == CountdownView::fresh(c.original),
{
    let started = c.count(times[0]);
    let rest = times.drop_first();
    if c.remaining > 0 {
        lemma_rollover(started, rest);
    } else {
        assert(started.after(rest) == started);
    }
}

/// One full cycle from scratch: a new countdown is back at its full value,
/// untouched, after one poll more than its full value, a second or more
/// apart.
pub proof fn lemma_full_cycle_from_fresh(original: nat, times: Seq<nat>)
    requires
        times.len() == original + 1,
        spaced(times[0], times.drop_first()),
    ensures
        CountdownView::fresh(original).after(times) == CountdownView::fresh(original),
{
    lemma_rollover_from_rest(CountdownView::fresh(original), times);
}

/// Polling again without any advance of the clock changes nothing about the
/// ticks left: after a poll at `now`, any number of further polls at `now`
/// leave them as that first poll left them.
pub proof fn lemma_polls_without_advance(c: CountdownView, now: nat, times: Seq<nat>)
    requires
        c.wf(),
        forall|k: int| 0 <= k < times.len() ==> times[k] == now,
    ensures
        c.count(now).after(times).remaining == c.count(now).remaining,
{
    lemma_idle_polls(c.count(now), now, times);
}

/// Polls at `now` of a countdown that does not tick at `now` leave the ticks
/// left as they are.
proof fn lemma_idle_polls(c: CountdownView, now: nat, times: Seq<nat>)
    requires
        c.wf(),
        !c.ticks_at(now),
        forall|k: int| 0 <= k < times.len() ==> times[k] == now,
    ensures
        c.after(times).remaining == c.remaining,
    decreases times.len(),
{
    if times.len() > 0 {
        lemma_idle_polls(c.count(now), now, times.drop_first());
    }
}

/// A one-second-tick counter with a display string, polled far more often than
/// once a second.
#[derive(Debug)]
pub struct Countdown {
    /// Ticks left.
    pub i: u64,
    /// Ticks that a full run starts with.
    pub i_original: u64,
    /// The ticks left as text, empty until the first poll of a run.
    pub i_string: String,
    /// The time, in milliseconds, from which the current second is measured.
    pub interval: u64,
    /// Whether the next poll is the first of a run, which only sets `interval`.
    pub first_count: bool,
}

impl View for Countdown {
    type V = CountdownView;

    open spec fn view(&self) -> CountdownView {
        CountdownView {
            remaining: self.i as nat,
            original: self.i_original as nat,
            display: self.i_string@,
            anchor: self.interval as nat,
            started: !self.first_count,
        }
    }
}

impl Countdown {
    /// See [`CountdownView::wf`].
    pub open spec fn wf(&self) -> bool {
        self@.wf()
    }

    /// Tests [`Countdown::wf`], for callers that fill in the fields themselves.
    pub fn is_valid(&self) -> (valid: bool)
        ensures
            valid == self.wf(),
    {
        self.i <= self.i_original && (self.i != 0 || (self.i_original == 0 && self.first_count))
    }

    /// A countdown of `i` ticks that no poll has touched yet.
    pub fn new(i: u64) -> (c: Countdown)
        ensures
            c@ == CountdownView::fresh(i as nat),
            c.wf(),
    {
        Countdown { i, i_original: i, i_string: String::new(), interval: 0, first_count: true }
    }

    /// Puts the countdown back to its full value, untouched by any poll.
    pub fn reset(&mut self)
        ensures
            final(self)@ == CountdownView::fresh(old(self)@.original),
            final(self).wf(),
    {
        *self = Countdown::new(self.i_original);
    }

    /// Polls the countdown at `now` (milliseconds on a monotonic clock). The
    /// first poll of a run sets the anchor; a later poll a second or more after
    /// the anchor takes one tick and moves the anchor to `now`. The display
    /// string follows the ticks left. At zero the countdown rolls over to its
    /// full value.
    pub fn count(&mut self, now: u64)
        requires
            old(self).wf(),
        ensures
            final(self)@ == old(self)@.count(now as nat),
            final(self).wf(),
    {
        if self.first_count {
            self.interval = now;
            self.first_count = false;
        }
        if millis_since(self.interval, now) >= MILLIS_PER_SECOND {
            self.i -= 1;
            self.interval = now;
        }
        self.i_string = to_decimal(self.i);
        if self.i == 0 {
            self.reset();
        }
    }
}

} // verus!
