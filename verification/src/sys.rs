//! The timer driver and its binding to the reactor, as a protocol.

use std::time::Duration;
use vstd::prelude::*;

pub mod kqueue;
pub mod lifetime;
pub mod timerfd;

verus! {

/// What a kernel timer is asked to do.
#[derive(Clone, Copy, Debug, PartialEq, Eq)]
pub enum TimeSpec {
    /// Fire once, after the duration.
    Timeout(Duration),
    /// Fire after the duration, and then again each time it has passed.
    Interval(Duration),
}

impl TimeSpec {
    /// The time to the first expiration, which for an interval is also the
    /// time between expirations.
    pub open spec fn duration(self) -> Duration {
        match self {
            TimeSpec::Timeout(d) => d,
            TimeSpec::Interval(d) => d,
        }
    }

    /// Whether the kernel re-arms the timer by itself after it fires.
    pub open spec fn repeats(self) -> bool {
        self is Interval
    }
}

/// A duration is longer than the kernel can be told in the fields that it
/// takes a time in. A timer of such a length is not armed.
#[derive(Clone, Copy, Debug, PartialEq, Eq, Structural)]
pub struct TooLong;

/// Why consuming an expiration did not yield one.
#[derive(Debug, PartialEq, Eq)]
pub enum ConsumeError<E> {
    /// No expiration is pending: the wakeup was spurious.
    WouldBlock,
    /// The kernel reported what a single timer cannot have produced.
    Protocol,
    /// The kernel refused the call.
    Io(E),
}

/// The answer of the reactor to a poll for read readiness.
#[derive(Clone, Copy, Debug, PartialEq, Eq, Structural)]
pub enum Readiness {
    /// Nothing has happened on the descriptor; the polling task has been
    /// recorded and will be woken when something does.
    Pending,
    /// Something has happened on the descriptor.
    Signaled {
        /// Whether the descriptor can be read.
        readable: bool,
    },
}

/// One thing that a timer asks to have done for it, by the kernel or by the
/// reactor.
#[derive(Clone, Copy, Debug, PartialEq, Eq)]
pub enum Action {
    /// Create the kernel timer, on the monotonic clock and non-blocking.
    Create,
    /// Program the kernel timer. Where the duration is too long for the
    /// kernel to be told, nothing is programmed, and that is the failure to
    /// answer with.
    Arm(TimeSpec),
    /// Bind the timer's descriptor to the reactor, for read interest.
    Register,
    /// Ask the reactor whether the descriptor is readable, to be woken when
    /// it becomes so.
    PollReadable,
    /// Take the pending expiration from the kernel timer, without blocking.
    Consume,
    /// Reset the readiness that the reactor holds for the descriptor, so that
    /// it watches for the next edge, and tell whether something has happened
    /// on the descriptor in the meantime.
    ClearReadable,
    /// Wake the polling task, so that it polls again.
    Wake,
}

/// What was done about an [`Action`].
#[derive(Debug, PartialEq, Eq)]
pub enum Event<E> {
    /// Answers [`Action::Create`].
    Created(Result<(), E>),
    /// Answers [`Action::Arm`].
    Armed(Result<(), E>),
    /// Answers [`Action::Register`].
    Registered(Result<(), E>),
    /// Answers [`Action::PollReadable`].
    Polled(Result<Readiness, E>),
    /// Answers [`Action::Consume`].
    Consumed(Result<(), ConsumeError<E>>),
    /// Answers [`Action::ClearReadable`].
    Cleared(Result<Readiness, E>),
    /// Answers [`Action::Wake`].
    Woken,
}

/// A failure of a timer. The payload is the error of the system call or of
/// the reactor, unchanged.
#[derive(Debug, PartialEq, Eq)]
pub enum Error<E> {
    /// The kernel refused to create a timer.
    Creation(E),
    /// The kernel refused to program the timer.
    Arm(E),
    /// The reactor refused the timer's descriptor.
    Registration(E),
    /// Polling for readiness, consuming an expiration or clearing the
    /// readiness failed.
    Io(E),
    /// The timer and its surroundings disagree: the kernel reported what a
    /// single timer cannot have produced, or an answer arrived for which no
    /// request was waiting.
    Protocol,
}

/// Whether a timer has elapsed.
#[derive(Clone, Copy, Debug, PartialEq, Eq, Structural)]
pub enum Async {
    /// It has.
    Ready,
    /// Not yet. The polling task is woken when that may have changed.
    NotReady,
}

/// How an operation on a timer goes on.
#[derive(Debug, PartialEq, Eq)]
pub enum Step<E> {
    /// The action is to be performed, and the timer advanced with the event
    /// that tells how it went.
    Do(Action),
    /// The operation is over, and this is its result.
    Done(Result<Async, Error<E>>),
}

impl<E> Step<E> {
    /// The action that the step asks for, if it asks for one.
    pub open spec fn action(self) -> Option<Action> {
        match self {
            Step::Do(action) => Some(action),
            Step::Done(_) => None,
        }
    }
}

/// What is to be torn down when a timer goes away.
#[derive(Clone, Copy, Debug, PartialEq, Eq, Structural)]
pub enum Release {
    /// There is no kernel timer.
    Nothing,
    /// Close the kernel timer; the reactor never knew it.
    Close,
    /// Take the descriptor from the reactor, then close the kernel timer.
    DeregisterAndClose,
}

/// Where a timer stands.
#[derive(Clone, Copy, Debug, PartialEq, Eq)]
pub enum Phase {
    /// Nothing has been created yet.
    Unopened,
    /// The action has been asked for and not been answered.
    Awaiting(Action),
    /// Armed and registered, with nothing under way.
    Idle,
    /// Setting up failed after the kernel timer was created. All that is
    /// left to do is to close it.
    Defunct,
    /// There is no kernel timer, and there will be none.
    Closed,
}

impl Phase {
    /// Whether a kernel timer exists that this timer owns.
    pub open spec fn holds_resource(self) -> bool {
        match self {
            Phase::Unopened => false,
            Phase::Awaiting(Action::Create) => false,
            Phase::Awaiting(_) => true,
            Phase::Idle => true,
            Phase::Defunct => true,
            Phase::Closed => false,
        }
    }

    /// Whether the kernel timer is bound to the reactor.
    pub open spec fn registered(self) -> bool {
        match self {
            Phase::Awaiting(Action::PollReadable) => true,
            Phase::Awaiting(Action::Consume) => true,
            Phase::Awaiting(Action::ClearReadable) => true,
            Phase::Awaiting(Action::Wake) => true,
            Phase::Idle => true,
            _ => false,
        }
    }
}

/// A [`Timer`] as contracts see it.
pub struct TimerState {
    /// What the kernel timer is armed with.
    pub schedule: TimeSpec,
    /// Where the timer stands.
    pub phase: Phase,
}

impl TimerState {
    /// The same timer in another phase.
    pub open spec fn at(self, phase: Phase) -> TimerState {
        TimerState { schedule: self.schedule, phase }
    }

    /// Setting up: from nothing, the first thing is to create the kernel
    /// timer. A timer can be set up once.
    pub open spec fn begin<E>(self) -> (TimerState, Step<E>) {
        match self.phase {
            Phase::Unopened => (self.at(Phase::Awaiting(Action::Create)), Step::Do(Action::Create)),
            _ => (self, Step::Done(Err(Error::Protocol))),
        }
    }

    /// A poll: an idle timer first asks the reactor. A timer that is not
    /// idle cannot be polled.
    pub open spec fn poll<E>(self) -> (TimerState, Step<E>) {
        match self.phase {
            Phase::Idle => (
                self.at(Phase::Awaiting(Action::PollReadable)),
                Step::Do(Action::PollReadable),
            ),
            _ => (self, Step::Done(Err(Error::Protocol))),
        }
    }

    /// The timer after `event`, and how the operation under way goes on.
    ///
    /// Setting up creates, arms and registers, in that order, and stops at
    /// the first failure. A poll is not ready unless the reactor reports the
    /// descriptor readable; then the expiration is consumed, and only a
    /// consumed expiration makes the poll ready. A wakeup with no expiration
    /// behind it has the readiness cleared before the poll reports not
    /// ready; where something happened on the descriptor while it was
    /// cleared, nobody would be woken for it, so the polling task is woken
    /// to poll again. An event that does not answer the pending action
    /// changes nothing and is a protocol failure.
    pub open spec fn advance<E>(self, event: Event<E>) -> (TimerState, Step<E>) {
        match (self.phase, event) {
            (Phase::Awaiting(Action::Create), Event::Created(Ok(_))) => (
                self.at(Phase::Awaiting(Action::Arm(self.schedule))),
                Step::Do(Action::Arm(self.schedule)),
            ),
            (Phase::Awaiting(Action::Create), Event::Created(Err(e))) => (
                self.at(Phase::Closed),
                Step::Done(Err(Error::Creation(e))),
            ),
            (Phase::Awaiting(Action::Arm(_)), Event::Armed(Ok(_))) => (
                self.at(Phase::Awaiting(Action::Register)),
                Step::Do(Action::Register),
            ),
            (Phase::Awaiting(Action::Arm(_)), Event::Armed(Err(e))) => (
                self.at(Phase::Defunct),
                Step::Done(Err(Error::Arm(e))),
            ),
            (Phase::Awaiting(Action::Register), Event::Registered(Ok(_))) => (
                self.at(Phase::Idle),
                Step::Done(Ok(Async::NotReady)),
            ),
            (Phase::Awaiting(Action::Register), Event::Registered(Err(e))) => (
                self.at(Phase::Defunct),
                Step::Done(Err(Error::Registration(e))),
            ),
            (Phase::Awaiting(Action::PollReadable), Event::Polled(Ok(readiness))) => {
                if readiness == (Readiness::Signaled { readable: true }) {
                    (self.at(Phase::Awaiting(Action::Consume)), Step::Do(Action::Consume))
                } else {
                    (self.at(Phase::Idle), Step::Done(Ok(Async::NotReady)))
                }
            },
            (Phase::Awaiting(Action::PollReadable), Event::Polled(Err(e))) => (
                self.at(Phase::Idle),
                Step::Done(Err(Error::Io(e))),
            ),
            (Phase::Awaiting(Action::Consume), Event::Consumed(Ok(_))) => (
                self.at(Phase::Idle),
                Step::Done(Ok(Async::Ready)),
            ),
            (Phase::Awaiting(Action::Consume), Event::Consumed(Err(ConsumeError::WouldBlock))) => (
                self.at(Phase::Awaiting(Action::ClearReadable)),
                Step::Do(Action::ClearReadable),
            ),
            (Phase::Awaiting(Action::Consume), Event::Consumed(Err(ConsumeError::Protocol))) => (
                self.at(Phase::Idle),
                Step::Done(Err(Error::Protocol)),
            ),
            (Phase::Awaiting(Action::Consume), Event::Consumed(Err(ConsumeError::Io(e)))) => (
                self.at(Phase::Idle),
                Step::Done(Err(Error::Io(e))),
            ),
            (Phase::Awaiting(Action::ClearReadable), Event::Cleared(Ok(readiness))) => {
                if readiness is Signaled {
                    (self.at(Phase::Awaiting(Action::Wake)), Step::Do(Action::Wake))
                } else {
                    (self.at(Phase::Idle), Step::Done(Ok(Async::NotReady)))
                }
            },
            (Phase::Awaiting(Action::ClearReadable), Event::Cleared(Err(e))) => (
                self.at(Phase::Idle),
                Step::Done(Err(Error::Io(e))),
            ),
            (Phase::Awaiting(Action::Wake), Event::Woken) => (
                self.at(Phase::Idle),
                Step::Done(Ok(Async::NotReady)),
            ),
            _ => (self, Step::Done(Err(Error::Protocol))),
        }
    }

    /// Tearing down: the kernel timer, if there is one, is closed, after it
    /// has been taken from the reactor if it was registered there.
    pub open spec fn close(self) -> (TimerState, Release) {
        (
            self.at(Phase::Closed),
            if self.phase.registered() {
                Release::DeregisterAndClose
            } else if self.phase.holds_resource() {
                Release::Close
            } else {
                Release::Nothing
            },
        )
    }
}

/// One kernel timer and its binding to the reactor: what is to be done with
/// them, and in which order.
#[derive(Debug)]
pub struct Timer {
    schedule: TimeSpec,
    phase: Phase,
}

impl View for Timer {
    type V = TimerState;

    closed spec fn view(&self) -> TimerState {
        TimerState { schedule: self.schedule, phase: self.phase }
    }
}

impl Timer {
    /// A timer to be armed with `schedule`. Nothing exists in the kernel
    /// before the timer is set up.
    pub fn new(schedule: TimeSpec) -> (timer: Timer)
        ensures
            timer@ == (TimerState { schedule, phase: Phase::Unopened }),
    {
        Timer { schedule, phase: Phase::Unopened }
    }

    /// What the kernel timer is armed with.
    pub fn schedule(&self) -> (schedule: TimeSpec)
        ensures
            schedule == self@.schedule,
    {
        self.schedule
    }

    /// Where the timer stands.
    pub fn phase(&self) -> (phase: Phase)
        ensures
            phase == self@.phase,
    {
        self.phase
    }

    /// Starts setting the timer up.
    pub fn begin<E>(&mut self) -> (step: Step<E>)
        ensures
            (final(self)@, step) == old(self)@.begin::<E>(),
    {
        match self.phase {
            Phase::Unopened => {
                self.phase = Phase::Awaiting(Action::Create);
                Step::Do(Action::Create)
            },
            _ => Step::Done(Err(Error::Protocol)),
        }
    }

    /// Starts a poll.
    pub fn poll<E>(&mut self) -> (step: Step<E>)
        ensures
            (final(self)@, step) == old(self)@.poll::<E>(),
    {
        match self.phase {
            Phase::Idle => {
                self.phase = Phase::Awaiting(Action::PollReadable);
                Step::Do(Action::PollReadable)
            },
            _ => Step::Done(Err(Error::Protocol)),
        }
    }

    /// Takes the answer to the action that was asked for last, and says how
    /// the operation goes on.
    pub fn advance<E>(&mut self, event: Event<E>) -> (step: Step<E>)
        ensures
            (final(self)@, step) == old(self)@.advance(event),
    {
        match (self.phase, event) {
            (Phase::Awaiting(Action::Create), Event::Created(Ok(_))) => {
                self.phase = Phase::Awaiting(Action::Arm(self.schedule));
                Step::Do(Action::Arm(self.schedule))
            },
            (Phase::Awaiting(Action::Create), Event::Created(Err(e))) => {
                self.phase = Phase::Closed;
                Step::Done(Err(Error::Creation(e)))
            },
            (Phase::Awaiting(Action::Arm(_)), Event::Armed(Ok(_))) => {
                self.phase = Phase::Awaiting(Action::Register);
                Step::Do(Action::Register)
            },
            (Phase::Awaiting(Action::Arm(_)), Event::Armed(Err(e))) => {
                self.phase = Phase::Defunct;
                Step::Done(Err(Error::Arm(e)))
            },
            (Phase::Awaiting(Action::Register), Event::Registered(Ok(_))) => {
                self.phase = Phase::Idle;
                Step::Done(Ok(Async::NotReady))
            },
            (Phase::Awaiting(Action::Register), Event::Registered(Err(e))) => {
                self.phase = Phase::Defunct;
                Step::Done(Err(Error::Registration(e)))
            },
            (Phase::Awaiting(Action::PollReadable), Event::Polled(Ok(readiness))) => {
                let readable = match readiness {
                    Readiness::Pending => false,
                    Readiness::Signaled { readable } => readable,
                };
                if readable {
                    // make sure to also check the timer in case of spurious wakeups
                    self.phase = Phase::Awaiting(Action::Consume);
                    Step::Do(Action::Consume)
                } else {
                    self.phase = Phase::Idle;
                    Step::Done(Ok(Async::NotReady))
                }
            },
            (Phase::Awaiting(Action::PollReadable), Event::Polled(Err(e))) => {
                self.phase = Phase::Idle;
                Step::Done(Err(Error::Io(e)))
            },
            (Phase::Awaiting(Action::Consume), Event::Consumed(Ok(_))) => {
                self.phase = Phase::Idle;
                Step::Done(Ok(Async::Ready))
            },
            (Phase::Awaiting(Action::Consume), Event::Consumed(Err(ConsumeError::WouldBlock))) => {
                self.phase = Phase::Awaiting(Action::ClearReadable);
                Step::Do(Action::ClearReadable)
            },
            (Phase::Awaiting(Action::Consume), Event::Consumed(Err(ConsumeError::Protocol))) => {
                self.phase = Phase::Idle;
                Step::Done(Err(Error::Protocol))
            },
            (Phase::Awaiting(Action::Consume), Event::Consumed(Err(ConsumeError::Io(e)))) => {
                self.phase = Phase::Idle;
                Step::Done(Err(Error::Io(e)))
            },
            (Phase::Awaiting(Action::ClearReadable), Event::Cleared(Ok(readiness))) => {
                match readiness {
                    Readiness::Signaled { .. } => {
                        // the event has been taken, and nobody will be woken for it
                        self.phase = Phase::Awaiting(Action::Wake);
                        Step::Do(Action::Wake)
                    },
                    Readiness::Pending => {
                        self.phase = Phase::Idle;
                        Step::Done(Ok(Async::NotReady))
                    },
                }
            },
            (Phase::Awaiting(Action::ClearReadable), Event::Cleared(Err(e))) => {
                self.phase = Phase::Idle;
                Step::Done(Err(Error::Io(e)))
            },
            (Phase::Awaiting(Action::Wake), Event::Woken) => {
                self.phase = Phase::Idle;
                Step::Done(Ok(Async::NotReady))
            },
            _ => Step::Done(Err(Error::Protocol)),
        }
    }

    /// Gives up the kernel timer: says what there is to tear down, and
    /// holds nothing afterwards.
    pub fn close(&mut self) -> (release: Release)
        ensures
            (final(self)@, release) == old(self)@.close(),
    {
        let release = match self.phase {
            Phase::Unopened => Release::Nothing,
            Phase::Awaiting(Action::Create) => Release::Nothing,
            Phase::Awaiting(Action::Arm(_)) => Release::Close,
            Phase::Awaiting(Action::Register) => Release::Close,
            Phase::Awaiting(_) => Release::DeregisterAndClose,
            Phase::Idle => Release::DeregisterAndClose,
            Phase::Defunct => Release::Close,
            Phase::Closed => Release::Nothing,
        };
        self.phase = Phase::Closed;
        release
    }
}

/// Setting up goes through creating, arming and registering, in that order,
/// each step once the one before has succeeded, and leaves the timer idle:
/// armed, registered, and not yet ready.
pub proof fn lemma_setup_in_order<E>(schedule: TimeSpec)
    ensures
        ({
            let unopened = TimerState { schedule, phase: Phase::Unopened };
            let (creating, first) = unopened.begin::<E>();
            let (arming, second) = creating.advance(Event::<E>::Created(Ok(())));
            let (registering, third) = arming.advance(Event::<E>::Armed(Ok(())));
            let (idle, last) = registering.advance(Event::<E>::Registered(Ok(())));
            &&& first == Step::<E>::Do(Action::Create)
            &&& second == Step::<E>::Do(Action::Arm(schedule))
            &&& third == Step::<E>::Do(Action::Register)
            &&& last == Step::<E>::Done(Ok(Async::NotReady))
            &&& idle == unopened.at(Phase::Idle)
        }),
{
}

/// Setting up stops at the first failure and reports it with the error as
/// it came. A refused creation leaves nothing behind; after a refused
/// setting or registration the kernel timer is still there, unregistered, to
/// be closed.
pub proof fn lemma_setup_failures<E>(timer: TimerState, error: E)
    ensures
        timer.phase == Phase::Awaiting(Action::Create) ==> {
            let (next, step) = timer.advance(Event::Created(Err(error)));
            &&& step == Step::Done(Err(Error::Creation(error)))
            &&& next.close() == (next.at(Phase::Closed), Release::Nothing)
        },
        timer.phase is Awaiting && timer.phase->Awaiting_0 is Arm ==> {
            let (next, step) = timer.advance(Event::Armed(Err(error)));
            &&& step == Step::Done(Err(Error::Arm(error)))
            &&& next.close() == (next.at(Phase::Closed), Release::Close)
        },
        timer.phase == Phase::Awaiting(Action::Register) ==> {
            let (next, step) = timer.advance(Event::Registered(Err(error)));
            &&& step == Step::Done(Err(Error::Registration(error)))
            &&& next.close() == (next.at(Phase::Closed), Release::Close)
        },
{
}

/// A poll of an idle timer asks the reactor first, and is not ready, with
/// the timer idle again, unless the reactor reports the descriptor
/// readable. Then it asks for the expiration, and nothing else.
pub proof fn lemma_poll_asks_reactor_first<E>(timer: TimerState, readiness: Readiness)
    requires
        timer.phase == Phase::Idle,
    ensures
        ({
            let (polling, first) = timer.poll::<E>();
            let (next, second) = polling.advance(Event::<E>::Polled(Ok(readiness)));
            &&& first == Step::<E>::Do(Action::PollReadable)
            &&& readiness == (Readiness::Signaled { readable: true }) ==> second == Step::<E>::Do(
                Action::Consume,
            )
            &&& readiness != (Readiness::Signaled { readable: true }) ==> second == Step::<E>::Done(
                Ok(Async::NotReady),
            ) && next == timer
        }),
{
}

/// Once the expiration has been asked for, the poll is ready exactly if
/// one was there. If none was, the wakeup was spurious: the readiness is
/// cleared before the poll ends, the polling task is woken if something
/// happened on the descriptor meanwhile, and then the poll ends not ready.
/// Any other failure ends the poll with the error as it came. Either way the
/// timer is idle again afterwards.
pub proof fn lemma_consume_decides<E>(
    timer: TimerState,
    consumed: Result<(), ConsumeError<E>>,
    cleared: Readiness,
)
    requires
        timer.phase == Phase::Awaiting(Action::Consume),
    ensures
        ({
            let (next, step) = timer.advance(Event::Consumed(consumed));
            match consumed {
                Ok(_) => step == Step::<E>::Done(Ok(Async::Ready)) && next == timer.at(Phase::Idle),
                Err(ConsumeError::WouldBlock) => {
                    &&& step == Step::<E>::Do(Action::ClearReadable)
                    &&& cleared is Pending ==> next.advance(Event::<E>::Cleared(Ok(cleared))) == (
                        timer.at(Phase::Idle),
                        Step::<E>::Done(Ok(Async::NotReady)),
                    )
                    &&& cleared is Signaled ==> {
                        let (waking, wake) = next.advance(Event::<E>::Cleared(Ok(cleared)));
                        &&& wake == Step::<E>::Do(Action::Wake)
                        &&& waking.advance(Event::<E>::Woken) == (
                            timer.at(Phase::Idle),
                            Step::<E>::Done(Ok(Async::NotReady)),
                        )
                    }
                },
                Err(ConsumeError::Protocol) => step == Step::<E>::Done(Err(Error::Protocol))
                    && next == timer.at(Phase::Idle),
                Err(ConsumeError::Io(e)) => step == Step::Done(Err(Error::Io(e))) && next
                    == timer.at(Phase::Idle),
            }
        }),
{
}

/// The readiness is cleared only after a wakeup that proved spurious, only
/// a poll that found the descriptor readable consumes, and the task is woken
/// only where clearing found that something had happened.
pub proof fn lemma_consume_before_clear<E>(timer: TimerState, event: Event<E>)
    ensures
        timer.advance(event).1 == Step::<E>::Do(Action::Wake) ==> timer.phase == Phase::Awaiting(
            Action::ClearReadable,
        ) && event is Cleared && event->Cleared_0 is Ok && event->Cleared_0->Ok_0 is Signaled,
        timer.advance(event).1 == Step::<E>::Do(Action::ClearReadable) ==> timer.phase
            == Phase::Awaiting(Action::Consume) && event == Event::<E>::Consumed(
            Err(ConsumeError::WouldBlock),
        ),
        timer.advance(event).1 == Step::<E>::Do(Action::Consume) ==> timer.phase
            == Phase::Awaiting(Action::PollReadable) && event == Event::<E>::Polled(
            Ok(Readiness::Signaled { readable: true }),
        ),
{
}

/// A kernel timer is created for a timer at most once: only setting up an
/// unopened timer asks for one, no timer is unopened after any operation on
/// it, and a timer comes to hold one only by the answer that it was
/// created.
pub proof fn lemma_created_once<E>(timer: TimerState, event: Event<E>)
    ensures
        timer.begin::<E>().1 == Step::<E>::Do(Action::Create) <==> timer.phase == Phase::Unopened,
        timer.begin::<E>().0.phase != Phase::Unopened,
        timer.poll::<E>().1 != Step::<E>::Do(Action::Create),
        timer.advance(event).1 != Step::<E>::Do(Action::Create),
        timer.phase != Phase::Unopened ==> timer.poll::<E>().0.phase != Phase::Unopened
            && timer.advance(event).0.phase != Phase::Unopened,
        timer.close().0.phase != Phase::Unopened,
        !timer.phase.holds_resource() && timer.advance(event).0.phase.holds_resource()
            ==> timer.phase == Phase::Awaiting(Action::Create) && event is Created
            && event->Created_0 is Ok,
        !timer.phase.holds_resource() ==> !timer.begin::<E>().0.phase.holds_resource()
            && !timer.poll::<E>().0.phase.holds_resource(),
{
}

/// A registered timer is never created, armed or registered again: the
/// kernel re-arms an interval by itself, and nothing but tearing down takes
/// the timer from the reactor.
pub proof fn lemma_never_rearmed<E>(timer: TimerState, event: Event<E>)
    requires
        timer.phase.registered(),
    ensures
        timer.poll::<E>().0.phase.registered(),
        timer.advance(event).0.phase.registered(),
        timer.begin::<E>() == (timer, Step::<E>::Done(Err(Error::Protocol))),
        forall|action: Action|
            timer.poll::<E>().1 == Step::<E>::Do(action) || timer.advance(event).1 == Step::<E>::Do(
                action,
            ) ==> action == Action::PollReadable || action == Action::Consume || action
                == Action::ClearReadable || action == Action::Wake,
{
}

/// The kernel timer is released exactly once. In whatever phase a timer is
/// torn down, it asks for the kernel timer to be closed if and only if it
/// holds one, and to be taken from the reactor first if and only if it is
/// registered there. Afterwards it holds nothing: being torn down again asks
/// for nothing, and no operation asks for anything any more. Nothing but
/// tearing down lets go of a kernel timer.
pub proof fn lemma_released_once<E>(timer: TimerState, event: Event<E>)
    ensures
        timer.close().1 != Release::Nothing <==> timer.phase.holds_resource(),
        timer.close().1 == Release::DeregisterAndClose <==> timer.phase.registered(),
        !timer.close().0.phase.holds_resource(),
        timer.close().0.close() == (timer.close().0, Release::Nothing),
        timer.close().0.begin::<E>() == (timer.close().0, Step::<E>::Done(Err(Error::Protocol))),
        timer.close().0.poll::<E>() == (timer.close().0, Step::<E>::Done(Err(Error::Protocol))),
        timer.close().0.advance(event) == (timer.close().0, Step::<E>::Done(Err(Error::Protocol))),
        timer.phase.holds_resource() ==> timer.begin::<E>().0.phase.holds_resource()
            && timer.poll::<E>().0.phase.holds_resource() && timer.advance(
            event,
        ).0.phase.holds_resource(),
{
}

} // verus!
