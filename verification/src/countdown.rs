//! The delay countdown (shown after the selection, before the capture).
//!
//! The overlay ticks once a second from `seconds` down to zero, then closes
//! and fires the capture one compositor-settle delay later; Esc or the
//! Cancel pill abort. The done and cancel callbacks fire exactly once
//! between them. The timers and the window live outside: they feed the
//! events below in and perform what comes back.

use vstd::prelude::*;

verus! {

/// The countdown's state.
#[derive(PartialEq, Eq, Structural, Clone, Copy, Debug)]
pub struct Countdown {
    /// The number currently shown.
    pub remaining: u64,
    /// The done callback has not fired or been disarmed yet.
    pub done_armed: bool,
    /// The cancel callback has not fired yet.
    pub cancel_armed: bool,
    /// The overlay window is open (it takes the Esc key and the pill).
    pub open: bool,
    /// The one-second tick timer is running.
    pub ticking: bool,
    /// The settle timer is pending.
    pub settling: bool,
}

/// What the overlay does after a tick.
#[derive(PartialEq, Eq, Structural, Clone, Copy, Debug)]
pub enum TickAction {
    /// Show the new number and keep ticking.
    Show(u64),
    /// Close the window and start the settle timer; stop ticking.
    CloseAndSettle,
    /// The countdown was cancelled; stop ticking.
    Stop,
}

/// What starting a countdown does.
#[derive(PartialEq, Eq, Structural, Clone, Copy, Debug)]
pub enum StartAction {
    /// No delay: fire the done callback now, show nothing.
    FireNow,
    /// Present the overlay showing this number and start ticking.
    Show(u64),
}

/// An event delivered to a countdown.
#[derive(PartialEq, Eq, Structural, Clone, Copy, Debug)]
pub enum Event {
    Tick,
    Settle,
    Cancel,
}

/// The state right after starting with `seconds`.
pub open spec fn start_state(seconds: u64) -> Countdown {
    if seconds == 0 {
        Countdown {
            remaining: 0,
            done_armed: false,
            cancel_armed: false,
            open: false,
            ticking: false,
            settling: false,
        }
    } else {
        Countdown {
            remaining: seconds,
            done_armed: true,
            cancel_armed: true,
            open: true,
            ticking: true,
            settling: false,
        }
    }
}

/// One tick: disarmed countdowns stop; otherwise the number drops by one,
/// and at zero the window closes and the settle timer starts.
pub open spec fn tick_step(c: Countdown) -> (Countdown, TickAction) {
    if !c.done_armed {
        (Countdown { ticking: false, ..c }, TickAction::Stop)
    } else {
        let left = if c.remaining == 0 {
            0
        } else {
            (c.remaining - 1) as u64
        };
        if left > 0 {
            (Countdown { remaining: left, ..c }, TickAction::Show(left))
        } else {
            (
                Countdown { remaining: left, open: false, ticking: false, settling: true, ..c },
                TickAction::CloseAndSettle,
            )
        }
    }
}

/// The settle timer: fires the done callback unless it was disarmed.
pub open spec fn settle_step(c: Countdown) -> (Countdown, bool) {
    (Countdown { done_armed: false, settling: false, ..c }, c.done_armed)
}

/// Cancel: disarms the done callback and fires the cancel callback (closing
/// the window) unless it already fired.
pub open spec fn cancel_step(c: Countdown) -> (Countdown, bool) {
    if c.cancel_armed {
        (Countdown { done_armed: false, cancel_armed: false, open: false, ..c }, true)
    } else {
        (Countdown { done_armed: false, ..c }, false)
    }
}

/// Whether `e` can be delivered: ticks only while the tick timer runs,
/// the settle event only while it is pending, cancel only while the window
/// (which owns the Esc key and the pill) is open.
pub open spec fn deliverable(c: Countdown, e: Event) -> bool {
    match e {
        Event::Tick => c.ticking,
        Event::Settle => c.settling,
        Event::Cancel => c.open,
    }
}

/// The state after `e`, and whether the done and the cancel callback fired.
pub open spec fn step(c: Countdown, e: Event) -> (Countdown, bool, bool) {
    match e {
        Event::Tick => (tick_step(c).0, false, false),
        Event::Settle => (settle_step(c).0, settle_step(c).1, false),
        Event::Cancel => (cancel_step(c).0, false, cancel_step(c).1),
    }
}

pub open spec fn count(b: bool) -> nat {
    if b {
        1
    } else {
        0
    }
}

/// What the deliverable events of `es` (others never arrive) lead to.
pub struct Outcome {
    pub state: Countdown,
    /// Times the done callback fired.
    pub done: nat,
    /// Times the cancel callback fired.
    pub cancelled: nat,
    /// Ticks delivered.
    pub ticks: nat,
}

/// Runs the deliverable events of `es` from `c`.
pub open spec fn run(c: Countdown, es: Seq<Event>) -> Outcome
    decreases es.len(),
{
    if es.len() == 0 {
        Outcome { state: c, done: 0, cancelled: 0, ticks: 0 }
    } else {
        let o = run(c, es.drop_last());
        if deliverable(o.state, es.last()) {
            let (q, d, x) = step(o.state, es.last());
            Outcome {
                state: q,
                done: o.done + count(d),
                cancelled: o.cancelled + count(x),
                ticks: o.ticks + count(es.last() == Event::Tick),
            }
        } else {
            o
        }
    }
}

/// Callbacks that fired on starting with `seconds`.
pub open spec fn start_fires(seconds: u64) -> nat {
    if seconds == 0 {
        1
    } else {
        0
    }
}

/// What a countdown started with `seconds` keeps true, given what fired
/// and how many ticks arrived.
pub open spec fn consistent(seconds: u64, o: Outcome) -> bool {
    let c = o.state;
    let fired = start_fires(seconds) + o.done + o.cancelled;
    &&& fired <= 1
    &&& c.open ==> fired == 0 && c.cancel_armed && c.done_armed
    &&& c.done_armed ==> fired == 0
    &&& fired == 1 ==> !c.done_armed && !c.open
    &&& c.settling ==> !c.open && c.remaining == 0
    &&& c.ticking ==> c.open || !c.done_armed
    &&& c.done_armed ==> c.remaining + o.ticks == seconds
    &&& o.done == 1 ==> o.ticks == seconds && !c.ticking && !c.settling
    &&& c.done_armed && c.ticking ==> c.remaining >= 1
    &&& c.settling ==> !c.ticking
}

impl Countdown {
    /// Starts a countdown of `seconds`.
    pub fn start(seconds: u64) -> (r: (Countdown, StartAction))
        ensures
            r.0 == start_state(seconds),
            r.1 == (if seconds == 0 {
                StartAction::FireNow
            } else {
                StartAction::Show(seconds)
            }),
    {
        if seconds == 0 {
            (
                Countdown {
                    remaining: 0,
                    done_armed: false,
                    cancel_armed: false,
                    open: false,
                    ticking: false,
                    settling: false,
                },
                StartAction::FireNow,
            )
        } else {
            (
                Countdown {
                    remaining: seconds,
                    done_armed: true,
                    cancel_armed: true,
                    open: true,
                    ticking: true,
                    settling: false,
                },
                StartAction::Show(seconds),
            )
        }
    }

    /// One tick of the one-second timer.
    pub fn tick(&mut self) -> (a: TickAction)
        requires
            old(self).ticking,
        ensures
            (*final(self), a) == tick_step(*old(self)),
    {
        if !self.done_armed {
            self.ticking = false;
            return TickAction::Stop;
        }
        let left = if self.remaining == 0 {
            0
        } else {
            self.remaining - 1
        };
        self.remaining = left;
        if left > 0 {
            TickAction::Show(left)
        } else {
            self.open = false;
            self.ticking = false;
            self.settling = true;
            TickAction::CloseAndSettle
        }
    }

    /// The settle timer elapsed; returns whether to fire the done callback.
    pub fn settle(&mut self) -> (fire: bool)
        requires
            old(self).settling,
        ensures
            (*final(self), fire) == settle_step(*old(self)),
    {
        let fire = self.done_armed;
        self.done_armed = false;
        self.settling = false;
        fire
    }

    /// Esc or the Cancel pill; returns whether to close the window and fire
    /// the cancel callback.
    pub fn cancel(&mut self) -> (fire: bool)
        requires
            old(self).open,
        ensures
            (*final(self), fire) == cancel_step(*old(self)),
    {
        self.done_armed = false;
        if self.cancel_armed {
            self.cancel_armed = false;
            self.open = false;
            true
        } else {
            false
        }
    }
}

/// Whatever events arrive, the done and cancel callbacks fire at most once
/// between them (counting the immediate fire of a zero-second countdown),
/// and the done callback fires only after `seconds` ticks.
pub proof fn law_fires_at_most_once(seconds: u64, es: Seq<Event>)
    ensures
        start_fires(seconds) + run(start_state(seconds), es).done + run(
            start_state(seconds),
            es,
        ).cancelled <= 1,
        run(start_state(seconds), es).done == 1 ==> run(start_state(seconds), es).ticks
            == seconds,
        consistent(seconds, run(start_state(seconds), es)),
    decreases es.len(),
{
    if es.len() > 0 {
        law_fires_at_most_once(seconds, es.drop_last());
        let o = run(start_state(seconds), es.drop_last());
        let e = es.last();
        if deliverable(o.state, e) {
            match e {
                Event::Tick => {
                    assert(consistent(seconds, run(start_state(seconds), es)));
                },
                Event::Settle => {
                    assert(consistent(seconds, run(start_state(seconds), es)));
                },
                Event::Cancel => {
                    assert(consistent(seconds, run(start_state(seconds), es)));
                },
            }
        }
    }
}


/// A countdown whose callbacks are spent: nothing can fire any more.
pub open spec fn spent(c: Countdown) -> bool {
    !c.done_armed && !c.cancel_armed && !c.open
}

/// From a spent countdown, no event fires a callback, and it stays spent.
proof fn lemma_spent_stays_silent(c: Countdown, es: Seq<Event>)
    requires
        spent(c),
    ensures
        spent(run(c, es).state),
        run(c, es).done == 0,
        run(c, es).cancelled == 0,
    decreases es.len(),
{
    if es.len() > 0 {
        lemma_spent_stays_silent(c, es.drop_last());
    }
}

/// Running `a` then `b` is running `b` from where `a` left off, the counts
/// adding up.
proof fn lemma_run_append(c: Countdown, a: Seq<Event>, b: Seq<Event>)
    ensures
        run(c, a + b).state == run(run(c, a).state, b).state,
        run(c, a + b).done == run(c, a).done + run(run(c, a).state, b).done,
        run(c, a + b).cancelled == run(c, a).cancelled + run(run(c, a).state, b).cancelled,
    decreases b.len(),
{
    if b.len() == 0 {
        assert(a + b =~= a);
    } else {
        assert((a + b).drop_last() =~= a + b.drop_last());
        assert((a + b).last() == b.last());
        lemma_run_append(c, a, b.drop_last());
    }
}

/// Esc or Cancel while the overlay is still up (before the countdown has
/// reached zero), then any events at all, Esc and Cancel again included:
/// the cancel callback fires exactly once and the done callback never,
/// not even on a later tick.
pub proof fn law_cancel_before_zero(seconds: u64, before: Seq<Event>, after: Seq<Event>)
    requires
        run(start_state(seconds), before).state.open,
    ensures
        seconds > 0,
        run(start_state(seconds), before + seq![Event::Cancel] + after).cancelled == 1,
        run(start_state(seconds), before + seq![Event::Cancel] + after).done == 0,
        start_fires(seconds) == 0,
{
    let c0 = start_state(seconds);
    law_fires_at_most_once(seconds, before);
    let o = run(c0, before);
    let mid = before + seq![Event::Cancel];
    assert(mid.drop_last() =~= before);
    assert(run(c0, mid).cancelled == 1 && run(c0, mid).done == 0);
    assert(spent(run(c0, mid).state));
    lemma_run_append(c0, mid, after);
    lemma_spent_stays_silent(run(c0, mid).state, after);
}

} // verus!
