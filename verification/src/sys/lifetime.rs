//! The whole life of a timer: however it is used, it has at most one kernel
//! timer, registers it at most once, and lets go of it exactly once.

use crate::sys::{Action, Event, Phase, Release, TimerState};
use vstd::prelude::*;

verus! {

/// One call on a timer.
pub enum Call<E> {
    /// `begin`
    Begin,
    /// `poll`
    Poll,
    /// `advance` with an event
    Advance(Event<E>),
    /// `close`
    Close,
}

/// How often, over a run of calls, a timer asked for what, and how often it
/// came to own what.
pub struct Tally {
    /// How often the timer asked for a kernel timer to be created.
    pub creations: nat,
    /// How often the timer came to hold a kernel timer.
    pub acquisitions: nat,
    /// How often the timer asked for its descriptor to be registered.
    pub registrations: nat,
    /// How often the timer came to be registered.
    pub bindings: nat,
    /// How often the timer asked for its descriptor to be taken from the
    /// reactor.
    pub deregistrations: nat,
    /// How often the timer asked for its kernel timer to be closed.
    pub closings: nat,
}

/// One if it holds, else zero.
pub open spec fn one_if(holds: bool) -> nat {
    if holds {
        1
    } else {
        0
    }
}

impl Tally {
    /// The sum of two tallies.
    pub open spec fn plus(self, other: Tally) -> Tally {
        Tally {
            creations: self.creations + other.creations,
            acquisitions: self.acquisitions + other.acquisitions,
            registrations: self.registrations + other.registrations,
            bindings: self.bindings + other.bindings,
            deregistrations: self.deregistrations + other.deregistrations,
            closings: self.closings + other.closings,
        }
    }
}

impl TimerState {
    /// The timer after a call.
    pub open spec fn after<E>(self, call: Call<E>) -> TimerState {
        match call {
            Call::Begin => self.begin::<E>().0,
            Call::Poll => self.poll::<E>().0,
            Call::Advance(event) => self.advance(event).0,
            Call::Close => self.close().0,
        }
    }

    /// What a call makes the timer ask for, if anything.
    pub open spec fn asked<E>(self, call: Call<E>) -> Option<Action> {
        match call {
            Call::Begin => self.begin::<E>().1.action(),
            Call::Poll => self.poll::<E>().1.action(),
            Call::Advance(event) => self.advance(event).1.action(),
            Call::Close => None,
        }
    }

    /// What a call makes the timer give up.
    pub open spec fn released<E>(self, call: Call<E>) -> Release {
        match call {
            Call::Close => self.close().1,
            _ => Release::Nothing,
        }
    }

    /// What one call adds to the tally.
    pub open spec fn tally_of<E>(self, call: Call<E>) -> Tally {
        let next = self.after(call);
        Tally {
            creations: one_if(self.asked(call) == Some(Action::Create)),
            acquisitions: one_if(!self.phase.holds_resource() && next.phase.holds_resource()),
            registrations: one_if(self.asked(call) == Some(Action::Register)),
            bindings: one_if(!self.phase.registered() && next.phase.registered()),
            deregistrations: one_if(self.released(call) == Release::DeregisterAndClose),
            closings: one_if(self.released(call) != Release::Nothing),
        }
    }

    /// The timer after a run of calls.
    pub open spec fn run<E>(self, calls: Seq<Call<E>>) -> TimerState
        decreases calls.len(),
    {
        if calls.len() == 0 {
            self
        } else {
            self.after(calls[0]).run(calls.drop_first())
        }
    }

    /// The tally of a run of calls.
    pub open spec fn tally<E>(self, calls: Seq<Call<E>>) -> Tally
        decreases calls.len(),
    {
        if calls.len() == 0 {
            Tally {
                creations: 0,
                acquisitions: 0,
                registrations: 0,
                bindings: 0,
                deregistrations: 0,
                closings: 0,
            }
        } else {
            self.tally_of(calls[0]).plus(self.after(calls[0]).tally(calls.drop_first()))
        }
    }

    /// How far the timer is in its life. No call takes a timer back.
    pub open spec fn stage(self) -> nat {
        match self.phase {
            Phase::Unopened => 0,
            Phase::Awaiting(Action::Create) => 1,
            Phase::Awaiting(Action::Arm(_)) => 2,
            Phase::Awaiting(Action::Register) => 3,
            Phase::Defunct => 4,
            Phase::Awaiting(_) => 4,
            Phase::Idle => 4,
            Phase::Closed => 5,
        }
    }
}

/// Whatever is done with a timer, from whatever state: what is left to
/// happen in its life happens at most once, and what it holds in the end is
/// what it held at first and acquired, less what it gave up.
pub proof fn lemma_tally_from<E>(timer: TimerState, calls: Seq<Call<E>>)
    ensures
        ({
            let tally = timer.tally(calls);
            let last = timer.run(calls);
            &&& timer.stage() <= last.stage()
            &&& tally.creations <= one_if(timer.stage() < 1)
            &&& tally.acquisitions <= one_if(timer.stage() < 2)
            &&& tally.registrations <= one_if(timer.stage() < 3)
            &&& tally.bindings <= one_if(timer.stage() < 4)
            &&& tally.closings + one_if(last.phase.holds_resource()) == tally.acquisitions + one_if(
                timer.phase.holds_resource(),
            )
            &&& tally.deregistrations + one_if(last.phase.registered()) == tally.bindings + one_if(
                timer.phase.registered(),
            )
        }),
    decreases calls.len(),
{
    if calls.len() > 0 {
        lemma_tally_from(timer.after(calls[0]), calls.drop_first());
    }
}

/// A timer has one kernel timer at most in its life, and registers it once
/// at most. Once the timer has been closed, every kernel timer that it came
/// to hold has been closed, once, and it has been taken from the reactor,
/// once, if it was registered there: nothing leaks, and nothing is closed
/// twice.
pub proof fn lemma_one_kernel_timer<E>(timer: TimerState, calls: Seq<Call<E>>)
    requires
        timer.phase == Phase::Unopened,
    ensures
        ({
            let tally = timer.tally(calls);
            &&& tally.creations <= 1
            &&& tally.acquisitions <= 1
            &&& tally.registrations <= 1
            &&& tally.bindings <= 1
            &&& tally.closings <= tally.acquisitions
            &&& tally.deregistrations <= tally.bindings
            &&& timer.run(calls).phase == Phase::Closed ==> tally.closings == tally.acquisitions
                && tally.deregistrations == tally.bindings
        }),
{
    lemma_tally_from(timer, calls);
}

/// A timer that has been closed stays closed and asks for nothing any more.
pub proof fn lemma_closed_for_good<E>(timer: TimerState, calls: Seq<Call<E>>)
    requires
        timer.phase == Phase::Closed,
    ensures
        timer.run(calls) == timer,
        timer.tally(calls).closings == 0,
        timer.tally(calls).creations == 0,
        forall|i: int| 0 <= i < calls.len() ==> timer.asked(#[trigger] calls[i]) is None,
    decreases calls.len(),
{
    if calls.len() > 0 {
        let rest = calls.drop_first();
        lemma_closed_for_good(timer, rest);
        assert forall|i: int| 0 <= i < calls.len() implies timer.asked(#[trigger] calls[i])
            is None by {
            if i > 0 {
                assert(calls[i] == rest[i - 1]);
            }
        }
    }
}

} // verus!
