//! A repeating timer.

use crate::duration::{duration_is_zero, is_zero};
use crate::sys::{
    Action, Async, ConsumeError, Error, Event, Phase, Readiness, Release, Step, TimeSpec, Timer,
    TimerState,
};
use std::time::Duration;
use vstd::prelude::*;

verus! {

/// An [`Interval`] as contracts see it.
pub enum IntervalState {
    /// The period is zero: every poll yields, and there is no kernel timer.
    Immediate,
    /// A kernel timer runs, or is being set up. It re-arms itself each time
    /// it fires.
    Armed(TimerState),
}

impl IntervalState {
    /// A new interval. One of zero gets no timer: the kernel would take a
    /// zero time for a request to disarm.
    pub open spec fn new(interval: Duration) -> IntervalState {
        if duration_is_zero(interval) {
            IntervalState::Immediate
        } else {
            IntervalState::Armed(
                TimerState { schedule: TimeSpec::Interval(interval), phase: Phase::Unopened },
            )
        }
    }

    /// Setting up. Without a timer there is nothing to set up.
    pub open spec fn begin<E>(self) -> (IntervalState, Step<E>) {
        match self {
            IntervalState::Immediate => (self, Step::Done(Ok(Async::Ready))),
            IntervalState::Armed(timer) => (
                IntervalState::Armed(timer.begin::<E>().0),
                timer.begin::<E>().1,
            ),
        }
    }

    /// A poll. Without a timer it yields at once, every time.
    pub open spec fn poll<E>(self) -> (IntervalState, Step<E>) {
        match self {
            IntervalState::Immediate => (self, Step::Done(Ok(Async::Ready))),
            IntervalState::Armed(timer) => (
                IntervalState::Armed(timer.poll::<E>().0),
                timer.poll::<E>().1,
            ),
        }
    }

    /// The interval after `event`.
    pub open spec fn advance<E>(self, event: Event<E>) -> (IntervalState, Step<E>) {
        match self {
            IntervalState::Immediate => (self, Step::Done(Err(Error::Protocol))),
            IntervalState::Armed(timer) => (
                IntervalState::Armed(timer.advance(event).0),
                timer.advance(event).1,
            ),
        }
    }

    /// Tearing down.
    pub open spec fn close(self) -> (IntervalState, Release) {
        match self {
            IntervalState::Immediate => (self, Release::Nothing),
            IntervalState::Armed(timer) => (
                IntervalState::Armed(timer.close().0),
                timer.close().1,
            ),
        }
    }

    /// Whether a kernel timer exists that the interval owns.
    pub open spec fn holds_resource(self) -> bool {
        match self {
            IntervalState::Immediate => false,
            IntervalState::Armed(timer) => timer.phase.holds_resource(),
        }
    }
}

/// A stream that yields once every time a fixed amount of time elapses.
///
/// An `Interval` performs no work, and yields nothing but the fact that the
/// time has passed.
#[derive(Debug)]
pub struct Interval {
    e: Option<Timer>,
}

impl View for Interval {
    type V = IntervalState;

    closed spec fn view(&self) -> IntervalState {
        match self.e {
            None => IntervalState::Immediate,
            Some(timer) => IntervalState::Armed(timer@),
        }
    }
}

impl Interval {
    /// Create a new `Interval` that yields `interval` after its timer has
    /// been set up, which [`begin`](Interval::begin) starts, and again after
    /// every subsequent `interval`.
    pub fn new(interval: Duration) -> (created: Interval)
        ensures
            created@ == IntervalState::new(interval),
    {
        if is_zero(&interval) {
            // this would be interpreted as "inactive timer" by timerfd_settime
            return Interval { e: None };
        }
        Interval { e: Some(Timer::new(TimeSpec::Interval(interval))) }
    }

    /// Starts setting the interval's timer up.
    pub fn begin<E>(&mut self) -> (step: Step<E>)
        ensures
            (final(self)@, step) == old(self)@.begin::<E>(),
    {
        match &mut self.e {
            None => Step::Done(Ok(Async::Ready)),
            Some(timer) => timer.begin(),
        }
    }

    /// Starts a poll for the next tick.
    pub fn poll<E>(&mut self) -> (step: Step<E>)
        ensures
            (final(self)@, step) == old(self)@.poll::<E>(),
    {
        match &mut self.e {
            None => Step::Done(Ok(Async::Ready)),
            Some(timer) => timer.poll(),
        }
    }

    /// Takes the answer to the action that was asked for last, and says how
    /// the operation goes on.
    pub fn advance<E>(&mut self, event: Event<E>) -> (step: Step<E>)
        ensures
            (final(self)@, step) == old(self)@.advance(event),
    {
        match &mut self.e {
            None => Step::Done(Err(Error::Protocol)),
            Some(timer) => timer.advance(event),
        }
    }

    /// Gives up the kernel timer, if there is one: says what there is to
    /// tear down, and holds nothing afterwards.
    pub fn close(&mut self) -> (release: Release)
        ensures
            (final(self)@, release) == old(self)@.close(),
    {
        match &mut self.e {
            None => Release::Nothing,
            Some(timer) => timer.close(),
        }
    }
}

/// An interval of zero yields on every poll and never has a kernel timer:
/// setting it up and polling it end at once, ready, and nothing it is asked
/// or told makes it ask for anything, nor leaves anything to tear down.
pub proof fn lemma_zero_interval_is_immediate<E>(interval: Duration, event: Event<E>)
    requires
        duration_is_zero(interval),
    ensures
        IntervalState::new(interval) == IntervalState::Immediate,
        IntervalState::Immediate.begin::<E>() == (
            IntervalState::Immediate,
            Step::<E>::Done(Ok(Async::Ready)),
        ),
        IntervalState::Immediate.poll::<E>() == (
            IntervalState::Immediate,
            Step::<E>::Done(Ok(Async::Ready)),
        ),
        IntervalState::Immediate.advance(event) == (
            IntervalState::Immediate,
            Step::<E>::Done(Err(Error::Protocol)),
        ),
        IntervalState::Immediate.close() == (IntervalState::Immediate, Release::Nothing),
        !IntervalState::Immediate.holds_resource(),
{
}

/// An interval that is not zero gets one kernel timer, armed to repeat with
/// that period, and is not ready when it has been set up.
pub proof fn lemma_interval_is_armed<E>(interval: Duration)
    requires
        !duration_is_zero(interval),
    ensures
        ({
            let schedule = TimeSpec::Interval(interval);
            let (creating, first) = IntervalState::new(interval).begin::<E>();
            let (arming, second) = creating.advance(Event::<E>::Created(Ok(())));
            let (registering, third) = arming.advance(Event::<E>::Armed(Ok(())));
            let (armed, last) = registering.advance(Event::<E>::Registered(Ok(())));
            &&& first == Step::<E>::Do(Action::Create)
            &&& second == Step::<E>::Do(Action::Arm(schedule))
            &&& third == Step::<E>::Do(Action::Register)
            &&& last == Step::<E>::Done(Ok(Async::NotReady))
            &&& armed == IntervalState::Armed(TimerState { schedule, phase: Phase::Idle })
        }),
{
}

/// An armed interval is not ready as long as the reactor has nothing to
/// report, and ticks when the reactor reports the timer readable and the
/// expiration is there to consume. Whichever way a poll ends, the interval
/// is afterwards as it was before: so the next poll goes the same way, and
/// the one after it, without end.
pub proof fn lemma_interval_ticks_on_expiration<E>(timer: TimerState)
    requires
        timer.phase == Phase::Idle,
    ensures
        ({
            let armed = IntervalState::Armed(timer);
            let (polling, first) = armed.poll::<E>();
            let (waiting, pending) = polling.advance(Event::<E>::Polled(Ok(Readiness::Pending)));
            let (consuming, second) = polling.advance(
                Event::<E>::Polled(Ok(Readiness::Signaled { readable: true })),
            );
            let (ticked, tick) = consuming.advance(Event::<E>::Consumed(Ok(())));
            let (clearing, third) = consuming.advance(
                Event::<E>::Consumed(Err(ConsumeError::WouldBlock)),
            );
            let (cleared, spurious) = clearing.advance(
                Event::<E>::Cleared(Ok(Readiness::Pending)),
            );
            &&& first == Step::<E>::Do(Action::PollReadable)
            &&& pending == Step::<E>::Done(Ok(Async::NotReady))
            &&& waiting == armed
            &&& second == Step::<E>::Do(Action::Consume)
            &&& tick == Step::<E>::Done(Ok(Async::Ready))
            &&& ticked == armed
            &&& third == Step::<E>::Do(Action::ClearReadable)
            &&& spurious == Step::<E>::Done(Ok(Async::NotReady))
            &&& cleared == armed
        }),
{
}

/// An interval ticks only by consuming an expiration, and is never armed
/// again once it is registered: the kernel re-arms it.
pub proof fn lemma_interval_never_rearmed<E>(timer: TimerState, event: Event<E>)
    ensures
        ({
            let (next, step) = IntervalState::Armed(timer).advance(event);
            &&& step == Step::<E>::Done(Ok(Async::Ready)) <==> timer.phase == Phase::Awaiting(
                Action::Consume,
            ) && event is Consumed && event->Consumed_0 is Ok
            &&& timer.phase.registered() ==> !(step is Do && step->Do_0 is Arm)
        }),
        ({
            let step = IntervalState::Armed(timer).poll::<E>().1;
            timer.phase.registered() ==> !(step is Do && step->Do_0 is Arm)
        }),
{
}

/// The kernel timer of an interval is released exactly once. In whatever
/// state an interval is torn down, it asks for its kernel timer to be closed
/// if and only if it holds one; afterwards it holds none, being torn down
/// again asks for nothing, and nothing it is asked or told makes it ask for
/// anything.
pub proof fn lemma_interval_released_once<E>(interval: IntervalState, event: Event<E>)
    ensures
        interval.close().1 != Release::Nothing <==> interval.holds_resource(),
        !interval.close().0.holds_resource(),
        interval.close().0.close() == (interval.close().0, Release::Nothing),
        interval.close().0.begin::<E>().1 is Done,
        interval.close().0.poll::<E>().1 is Done,
        interval.close().0.advance(event).1 is Done,
        !interval.close().0.begin::<E>().0.holds_resource(),
        !interval.close().0.poll::<E>().0.holds_resource(),
        !interval.close().0.advance(event).0.holds_resource(),
        interval.holds_resource() ==> interval.begin::<E>().0.holds_resource()
            && interval.poll::<E>().0.holds_resource() && interval.advance(
            event,
        ).0.holds_resource(),
{
}

} // verus!
