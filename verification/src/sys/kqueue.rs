//! The kqueue strategy: one queue per timer, holding one timer filter.

use crate::duration::{duration_nanos, total_nanos};
use crate::sys::{ConsumeError, TimeSpec, TooLong};
use vstd::arithmetic::div_mod::{lemma_div_denominator, lemma_fundamental_div_mod, lemma_mod_bound};
use vstd::prelude::*;

verus! {

/// The identifier under which the timer filter is added to its queue.
pub const TIMER_IDENT: usize = 1;

/// The unit in which a timer filter counts its time.
#[derive(Clone, Copy, Debug, PartialEq, Eq, Structural)]
pub enum TimeUnit {
    /// `NOTE_NSECONDS`
    Nanoseconds,
    /// `NOTE_USECONDS`
    Microseconds,
    /// No unit flag at all: the kernel's default.
    Milliseconds,
    /// `NOTE_SECONDS`
    Seconds,
}

impl TimeUnit {
    /// Nanoseconds in one unit.
    pub open spec fn nanos(self) -> nat {
        match self {
            TimeUnit::Nanoseconds => 1,
            TimeUnit::Microseconds => 1_000,
            TimeUnit::Milliseconds => 1_000_000,
            TimeUnit::Seconds => 1_000_000_000,
        }
    }

    /// Whether `self` counts in smaller steps than `other`.
    pub open spec fn finer_than(self, other: TimeUnit) -> bool {
        self.nanos() < other.nanos()
    }
}

/// The action flags of the change that arms the timer.
#[derive(Clone, Copy, Debug, PartialEq, Eq, Structural)]
pub struct EventFlags {
    /// `EV_ADD`
    pub add: bool,
    /// `EV_ENABLE`
    pub enable: bool,
    /// `EV_ONESHOT`: the kernel removes the filter once it has fired.
    pub oneshot: bool,
}

/// The change submitted to the queue to arm its timer: an event of the timer
/// filter.
#[derive(Clone, Copy, Debug, PartialEq, Eq, Structural)]
pub struct TimerEvent {
    /// Identifies the timer within its queue.
    pub ident: usize,
    /// Action flags.
    pub flags: EventFlags,
    /// Filter flags: the unit of `data`.
    pub unit: TimeUnit,
    /// The time to wait, counted in `unit`.
    pub data: isize,
    /// Opaque user data, unused.
    pub udata: isize,
}

/// A length of `nanos` nanoseconds counted in whole `unit`s.
pub open spec fn scaled(nanos: nat, unit: TimeUnit) -> nat {
    nanos / unit.nanos()
}

/// Whether a count can be handed to the kernel: it has to fit the signed
/// machine word that the event's data is.
pub open spec fn fits(count: nat) -> bool {
    count <= isize::MAX
}

/// The unit for a timer of `nanos` nanoseconds: the finest in which the
/// count fits, and seconds when it fits in none.
pub open spec fn unit_for(nanos: nat) -> TimeUnit {
    if fits(scaled(nanos, TimeUnit::Nanoseconds)) {
        TimeUnit::Nanoseconds
    } else if fits(scaled(nanos, TimeUnit::Microseconds)) {
        TimeUnit::Microseconds
    } else if fits(scaled(nanos, TimeUnit::Milliseconds)) {
        TimeUnit::Milliseconds
    } else {
        TimeUnit::Seconds
    }
}

/// Whether the kernel can be told the length of `timer` at all: whether its
/// whole seconds, the count in the coarsest unit, fit the event's data.
pub open spec fn representable(timer: TimeSpec) -> bool {
    fits(scaled(duration_nanos(timer.duration()), TimeUnit::Seconds))
}

/// Whether `event` is the change that arms a timer as `timer` asks: the
/// timer filter is added and enabled under the timer's identifier, to be
/// removed after it has fired once unless the timer repeats, and its time is
/// the length of `timer` in whole units of the finest unit in which that
/// count fits.
pub open spec fn arms(event: TimerEvent, timer: TimeSpec) -> bool {
    let nanos = duration_nanos(timer.duration());
    &&& event.ident == TIMER_IDENT
    &&& event.flags == (EventFlags { add: true, enable: true, oneshot: !timer.repeats() })
    &&& event.unit == unit_for(nanos)
    &&& event.data == scaled(nanos, unit_for(nanos))
    &&& event.udata == 0
}

/// What the kernel returned when the queue was asked for a pending event.
#[derive(Clone, Copy, Debug, PartialEq, Eq, Structural)]
pub struct Pending {
    /// How many events the kernel stored.
    pub count: usize,
    /// The identifier in the first of them; meaningless when there is none.
    pub ident: usize,
}

/// How `Timer::check` reads the answer of the queue.
pub open spec fn checked<E>(polled: Result<Pending, E>) -> Result<(), ConsumeError<E>> {
    match polled {
        Err(e) => Err(ConsumeError::Io(e)),
        Ok(pending) => if pending.count == 0 {
            Err(ConsumeError::WouldBlock)
        } else if pending.count == 1 && pending.ident == TIMER_IDENT {
            Ok(())
        } else {
            Err(ConsumeError::Protocol)
        },
    }
}

/// A kernel event queue that holds one timer.
#[derive(Debug)]
pub struct Timer {
    kq: i32,
}

impl Timer {
    /// The descriptor of the queue.
    pub closed spec fn fd(&self) -> i32 {
        self.kq
    }

    /// Takes the queue that the kernel created, or hands on its refusal.
    pub fn new<E>(created: Result<i32, E>) -> (timer: Result<Timer, E>)
        ensures
            match created {
                Ok(kq) => timer is Ok && timer->Ok_0.fd() == kq,
                Err(e) => timer == Err::<Timer, E>(e),
            },
    {
        match created {
            Ok(kq) => Ok(Timer { kq }),
            Err(e) => Err(e),
        }
    }

    /// The descriptor of the queue, to register, poll and close it.
    pub fn as_raw_fd(&self) -> (fd: i32)
        ensures
            fd == self.fd(),
    {
        self.kq
    }

    /// The change to submit to the queue so that its timer runs as `timer`
    /// asks.
    ///
    /// The time is counted in the finest unit in which it fits the event's
    /// data, and is refused where it fits in none. A timeout is added as a
    /// one-shot filter, which the kernel removes when it fires; an interval
    /// stays and fires again by itself.
    pub fn set(&mut self, timer: TimeSpec) -> (event: Result<TimerEvent, TooLong>)
        ensures
            representable(timer) ==> event is Ok && arms(event->Ok_0, timer),
            !representable(timer) ==> event == Err::<TimerEvent, TooLong>(TooLong),
            final(self).fd() == old(self).fd(),
    {
        let oneshot = match timer {
            TimeSpec::Timeout(_) => true,
            TimeSpec::Interval(_) => false,
        };
        let time = match timer {
            TimeSpec::Timeout(d) => d,
            TimeSpec::Interval(d) => d,
        };

        // the smallest unit that can be used without overflow
        let ghost nanos = duration_nanos(time);
        let limit: u128 = isize::MAX as u128;
        let mut unit = TimeUnit::Nanoseconds;
        let mut time: u128 = total_nanos(&time);
        if time > limit {
            unit = TimeUnit::Microseconds;
            time = time / 1_000;
        }
        if time > limit {
            unit = TimeUnit::Milliseconds;
            time = time / 1_000;
            proof {
                lemma_div_denominator(nanos as int, 1_000, 1_000);
            }
        }
        if time > limit {
            unit = TimeUnit::Seconds;
            time = time / 1_000;
            proof {
                lemma_div_denominator(nanos as int, 1_000, 1_000);
                lemma_div_denominator(nanos as int, 1_000_000, 1_000);
            }
        }
        proof {
            lemma_unit_is_finest(nanos, TimeUnit::Seconds);
        }
        assert(unit == unit_for(nanos));
        assert(time == scaled(nanos, unit));
        if time > limit {
            return Err(TooLong);
        }
        Ok(
            TimerEvent {
                ident: TIMER_IDENT,
                flags: EventFlags { add: true, enable: true, oneshot },
                unit,
                data: time as isize,
                udata: 0,
            },
        )
    }

    /// Reads what the queue answered when asked, without waiting, for at
    /// most one pending event.
    ///
    /// No event means that the timer has not fired; one event of the timer
    /// means that it has. Anything else cannot come from a queue that holds
    /// a single timer, and is reported as such.
    pub fn check<E>(&mut self, polled: Result<Pending, E>) -> (fired: Result<(), ConsumeError<E>>)
        ensures
            fired == checked(polled),
            final(self).fd() == old(self).fd(),
    {
        match polled {
            Err(e) => Err(ConsumeError::Io(e)),
            Ok(pending) => {
                if pending.count == 0 {
                    Err(ConsumeError::WouldBlock)
                } else if pending.count == 1 && pending.ident == TIMER_IDENT {
                    Ok(())
                } else {
                    Err(ConsumeError::Protocol)
                }
            },
        }
    }
}

/// The unit of a timer is the finest in which its time fits the event's
/// data: in every finer unit the count is too large, and whenever the time
/// fits in some unit, it fits in the chosen one.
pub proof fn lemma_unit_is_finest(nanos: nat, other: TimeUnit)
    ensures
        other.finer_than(unit_for(nanos)) ==> !fits(scaled(nanos, other)),
        fits(scaled(nanos, other)) ==> fits(scaled(nanos, unit_for(nanos))),
{
    assert(nanos / 1 == nanos);
    lemma_div_denominator(nanos as int, 1_000, 1_000);
    lemma_div_denominator(nanos as int, 1_000_000, 1_000);
    assert(nanos / 1_000 <= nanos);
    assert((nanos / 1_000) / 1_000 <= nanos / 1_000);
    assert((nanos / 1_000_000) / 1_000 <= nanos / 1_000_000);
}

/// The time that arms a timer never overflows the event's data. It is the
/// length of the timer but for the rounding down to the unit, and a length
/// that is not zero is not handed on as zero.
pub proof fn lemma_time_is_kept(event: TimerEvent, timer: TimeSpec)
    requires
        representable(timer),
        arms(event, timer),
    ensures
        0 <= event.data <= isize::MAX,
        event.data * event.unit.nanos() <= duration_nanos(timer.duration()),
        duration_nanos(timer.duration()) < (event.data + 1) * event.unit.nanos(),
        duration_nanos(timer.duration()) > 0 ==> event.data > 0,
{
    let nanos = duration_nanos(timer.duration());
    let unit = unit_for(nanos);
    let count = scaled(nanos, unit);
    lemma_fundamental_div_mod(nanos as int, unit.nanos() as int);
    lemma_mod_bound(nanos as int, unit.nanos() as int);
    assert(unit.nanos() * count == count * unit.nanos()) by (nonlinear_arith);
    assert((count + 1) * unit.nanos() == count * unit.nanos() + unit.nanos()) by (nonlinear_arith);
    if nanos > 0 && count == 0 {
        // the length is below one unit, so a finer unit was called for, and
        // in the finest the count is the length itself
        assert(nanos / 1 == nanos);
        assert(false);
    }
}

/// A length that the kernel can be told has exactly one change that arms
/// it.
pub proof fn lemma_one_event_arms(first: TimerEvent, second: TimerEvent, timer: TimeSpec)
    requires
        arms(first, timer),
        arms(second, timer),
    ensures
        first == second,
{
}

/// A timeout is removed by the kernel when it has fired, and an interval is
/// not.
pub proof fn lemma_oneshot_unless_repeating(event: TimerEvent, timer: TimeSpec)
    requires
        arms(event, timer),
    ensures
        event.flags.add,
        event.flags.enable,
        event.flags.oneshot <==> timer is Timeout,
{
}

} // verus!
