//! A one-shot timer.

use crate::duration::{duration_is_zero, is_zero};
use crate::sys::{
    Action, Async, Error, Event, Phase, Readiness, Release, Step, TimeSpec, Timer, TimerState,
};
use std::time::Duration;
use vstd::prelude::*;

verus! {

/// A [`Delay`] as contracts see it.
pub enum DelayState {
    /// The delay is zero: there is nothing to wait for, and no kernel timer.
    Immediate,
    /// A kernel timer runs, or is being set up, and has not been seen to
    /// fire.
    Armed(TimerState),
    /// The kernel timer has fired, and has disarmed itself.
    Fired(TimerState),
}

impl DelayState {
    /// A new delay. One of zero gets no timer: the kernel would take a zero
    /// time for a request to disarm.
    pub open spec fn new(delay: Duration) -> DelayState {
        if duration_is_zero(delay) {
            DelayState::Immediate
        } else {
            DelayState::Armed(
                TimerState { schedule: TimeSpec::Timeout(delay), phase: Phase::Unopened },
            )
        }
    }

    /// Setting up. Without a timer there is nothing to set up, and the
    /// delay is over already.
    pub open spec fn begin<E>(self) -> (DelayState, Step<E>) {
        match self {
            DelayState::Immediate => (self, Step::Done(Ok(Async::Ready))),
            DelayState::Armed(timer) => (
                DelayState::Armed(timer.begin::<E>().0),
                timer.begin::<E>().1,
            ),
            DelayState::Fired(_) => (self, Step::Done(Err(Error::Protocol))),
        }
    }

    /// A poll. Only a delay that has a timer and has not seen it fire asks
    /// anything of it.
    pub open spec fn poll<E>(self) -> (DelayState, Step<E>) {
        match self {
            DelayState::Immediate => (self, Step::Done(Ok(Async::Ready))),
            DelayState::Armed(timer) => (
                DelayState::Armed(timer.poll::<E>().0),
                timer.poll::<E>().1,
            ),
            DelayState::Fired(_) => (self, Step::Done(Ok(Async::Ready))),
        }
    }

    /// The delay after `event`. The first poll that ends ready is
    /// remembered.
    pub open spec fn advance<E>(self, event: Event<E>) -> (DelayState, Step<E>) {
        match self {
            DelayState::Immediate => (self, Step::Done(Err(Error::Protocol))),
            DelayState::Armed(timer) => {
                let (next, step) = timer.advance(event);
                if step == Step::<E>::Done(Ok(Async::Ready)) {
                    (DelayState::Fired(next), step)
                } else {
                    (DelayState::Armed(next), step)
                }
            },
            DelayState::Fired(_) => (self, Step::Done(Err(Error::Protocol))),
        }
    }

    /// Tearing down.
    pub open spec fn close(self) -> (DelayState, Release) {
        match self {
            DelayState::Immediate => (self, Release::Nothing),
            DelayState::Armed(timer) => (DelayState::Armed(timer.close().0), timer.close().1),
            DelayState::Fired(timer) => (DelayState::Fired(timer.close().0), timer.close().1),
        }
    }

    /// Whether a kernel timer exists that the delay owns.
    pub open spec fn holds_resource(self) -> bool {
        match self {
            DelayState::Immediate => false,
            DelayState::Armed(timer) => timer.phase.holds_resource(),
            DelayState::Fired(timer) => timer.phase.holds_resource(),
        }
    }
}

/// A future that completes a specified amount of time from its creation.
///
/// A `Delay` performs no work, and completes with nothing but the fact that
/// the time has passed.
#[derive(Debug)]
pub struct Delay {
    e: Option<Timer>,
    fired: bool,
}

impl View for Delay {
    type V = DelayState;

    closed spec fn view(&self) -> DelayState {
        match self.e {
            None => DelayState::Immediate,
            Some(timer) => if self.fired {
                DelayState::Fired(timer@)
            } else {
                DelayState::Armed(timer@)
            },
        }
    }
}

impl Delay {
    /// Create a new `Delay` that elapses `delay` after its timer has been
    /// set up, which [`begin`](Delay::begin) starts.
    pub fn new(delay: Duration) -> (created: Delay)
        ensures
            created@ == DelayState::new(delay),
    {
        if is_zero(&delay) {
            // this would be interpreted as "inactive timer" by timerfd_settime
            return Delay { e: None, fired: false };
        }
        Delay { e: Some(Timer::new(TimeSpec::Timeout(delay))), fired: false }
    }

    /// Starts setting the delay's timer up.
    pub fn begin<E>(&mut self) -> (step: Step<E>)
        ensures
            (final(self)@, step) == old(self)@.begin::<E>(),
    {
        let fired = self.fired;
        match &mut self.e {
            None => Step::Done(Ok(Async::Ready)),
            Some(timer) => if fired {
                Step::Done(Err(Error::Protocol))
            } else {
                timer.begin()
            },
        }
    }

    /// Starts a poll.
    pub fn poll<E>(&mut self) -> (step: Step<E>)
        ensures
            (final(self)@, step) == old(self)@.poll::<E>(),
    {
        let fired = self.fired;
        match &mut self.e {
            None => Step::Done(Ok(Async::Ready)),
            Some(timer) => if fired {
                // the timer has been consumed, and has disarmed itself
                Step::Done(Ok(Async::Ready))
            } else {
                timer.poll()
            },
        }
    }

    /// Takes the answer to the action that was asked for last, and says how
    /// the operation goes on.
    pub fn advance<E>(&mut self, event: Event<E>) -> (step: Step<E>)
        ensures
            (final(self)@, step) == old(self)@.advance(event),
    {
        let fired = self.fired;
        match &mut self.e {
            None => Step::Done(Err(Error::Protocol)),
            Some(timer) => if fired {
                Step::Done(Err(Error::Protocol))
            } else {
                let step = timer.advance(event);
                match &step {
                    Step::Done(Ok(Async::Ready)) => {
                        self.fired = true;
                    },
                    _ => {},
                }
                step
            },
        }
    }

    /// Gives up the kernel timer, if there is one: says what there is to
    /// tear down, and holds nothing afterwards.
    pub fn close(&mut self) -> (release: Release)
        ensures
            (final(self)@, release) == old(self)@.close(),
    {
        match &mut self.e {
            None => Release::Nothing,
            Some(timer) => timer.close(),
        }
    }
}

/// A delay of zero is complete from the start and never has a kernel timer:
/// setting it up and polling it end at once, ready, and nothing it is asked
/// or told makes it ask for anything, nor leaves anything to tear down.
pub proof fn lemma_zero_delay_is_immediate<E>(delay: Duration, event: Event<E>)
    requires
        duration_is_zero(delay),
    ensures
        DelayState::new(delay) == DelayState::Immediate,
        DelayState::Immediate.begin::<E>() == (
            DelayState::Immediate,
            Step::<E>::Done(Ok(Async::Ready)),
        ),
        DelayState::Immediate.poll::<E>() == (
            DelayState::Immediate,
            Step::<E>::Done(Ok(Async::Ready)),
        ),
        DelayState::Immediate.advance(event) == (
            DelayState::Immediate,
            Step::<E>::Done(Err(Error::Protocol)),
        ),
        DelayState::Immediate.close() == (DelayState::Immediate, Release::Nothing),
        !DelayState::Immediate.holds_resource(),
{
}

/// A delay that is not zero gets one kernel timer, armed as a timeout of
/// that length, and is not ready when it has been set up.
pub proof fn lemma_delay_is_armed<E>(delay: Duration)
    requires
        !duration_is_zero(delay),
    ensures
        ({
            let schedule = TimeSpec::Timeout(delay);
            let (creating, first) = DelayState::new(delay).begin::<E>();
            let (arming, second) = creating.advance(Event::<E>::Created(Ok(())));
            let (registering, third) = arming.advance(Event::<E>::Armed(Ok(())));
            let (armed, last) = registering.advance(Event::<E>::Registered(Ok(())));
            &&& first == Step::<E>::Do(Action::Create)
            &&& second == Step::<E>::Do(Action::Arm(schedule))
            &&& third == Step::<E>::Do(Action::Register)
            &&& last == Step::<E>::Done(Ok(Async::NotReady))
            &&& armed == DelayState::Armed(TimerState { schedule, phase: Phase::Idle })
        }),
{
}

/// An armed delay is not ready, and stays as it is, as long as the reactor
/// has nothing to report; it completes when the reactor reports the timer
/// readable and the expiration is there to consume.
pub proof fn lemma_delay_completes_on_expiration<E>(timer: TimerState)
    requires
        timer.phase == Phase::Idle,
    ensures
        ({
            let armed = DelayState::Armed(timer);
            let (polling, first) = armed.poll::<E>();
            let (waiting, pending) = polling.advance(Event::<E>::Polled(Ok(Readiness::Pending)));
            let (consuming, second) = polling.advance(
                Event::<E>::Polled(Ok(Readiness::Signaled { readable: true })),
            );
            let (fired, last) = consuming.advance(Event::<E>::Consumed(Ok(())));
            &&& first == Step::<E>::Do(Action::PollReadable)
            &&& pending == Step::<E>::Done(Ok(Async::NotReady))
            &&& waiting == armed
            &&& second == Step::<E>::Do(Action::Consume)
            &&& last == Step::<E>::Done(Ok(Async::Ready))
            &&& fired == DelayState::Fired(timer)
        }),
{
}

/// A delay fires only by consuming an expiration, and a spurious wakeup
/// does not complete it.
pub proof fn lemma_delay_fires_on_expiration_only<E>(timer: TimerState, event: Event<E>)
    ensures
        ({
            let (next, step) = DelayState::Armed(timer).advance(event);
            &&& next is Fired <==> step == Step::<E>::Done(Ok(Async::Ready))
            &&& next is Fired <==> timer.phase == Phase::Awaiting(Action::Consume)
                && event is Consumed && event->Consumed_0 is Ok
        }),
{
}

/// A delay that has fired stays complete and leaves its timer alone: every
/// further poll is ready at once and asks for nothing, and so the timer is
/// never asked again after it has reported the expiration.
pub proof fn lemma_fired_delay_stays_complete<E>(timer: TimerState, event: Event<E>)
    ensures
        DelayState::Fired(timer).poll::<E>() == (
            DelayState::Fired(timer),
            Step::<E>::Done(Ok(Async::Ready)),
        ),
        DelayState::Fired(timer).begin::<E>().1 is Done,
        DelayState::Fired(timer).advance(event).1 is Done,
        DelayState::Fired(timer).begin::<E>().0 == DelayState::Fired(timer),
        DelayState::Fired(timer).advance(event).0 == DelayState::Fired(timer),
{
}

/// The kernel timer of a delay is released exactly once. In whatever state
/// a delay is torn down, it asks for its kernel timer to be closed if and
/// only if it holds one; afterwards it holds none, being torn down again
/// asks for nothing, and nothing it is asked or told makes it ask for
/// anything.
pub proof fn lemma_delay_released_once<E>(delay: DelayState, event: Event<E>)
    ensures
        delay.close().1 != Release::Nothing <==> delay.holds_resource(),
        !delay.close().0.holds_resource(),
        delay.close().0.close() == (delay.close().0, Release::Nothing),
        delay.close().0.begin::<E>().1 is Done,
        delay.close().0.poll::<E>().1 is Done,
        delay.close().0.advance(event).1 is Done,
        !delay.close().0.begin::<E>().0.holds_resource(),
        !delay.close().0.poll::<E>().0.holds_resource(),
        !delay.close().0.advance(event).0.holds_resource(),
        delay.holds_resource() ==> delay.begin::<E>().0.holds_resource()
            && delay.poll::<E>().0.holds_resource() && delay.advance(event).0.holds_resource(),
{
}

} // verus!
