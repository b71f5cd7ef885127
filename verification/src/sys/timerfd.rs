//! The timer file descriptor strategy: one descriptor per timer.

use crate::duration::{
    duration_is_zero, duration_nanos, duration_secs, duration_subsec_nanos, duration_wf,
    NANOS_PER_SEC,
};
use crate::sys::{ConsumeError, TimeSpec, TooLong};
use std::time::Duration;
use vstd::prelude::*;

verus! {

/// A time in seconds and nanoseconds, as the kernel takes it.
#[derive(Clone, Copy, Debug, PartialEq, Eq, Structural)]
pub struct Timespec {
    /// Whole seconds.
    pub tv_sec: i64,
    /// Nanoseconds on top of them.
    pub tv_nsec: i64,
}

/// The setting of a timer descriptor.
#[derive(Clone, Copy, Debug, PartialEq, Eq, Structural)]
pub struct Itimerspec {
    /// The time between expirations after the first. Zero: there is none
    /// after the first.
    pub it_interval: Timespec,
    /// The time to the first expiration. Zero would disarm the timer.
    pub it_value: Timespec,
}

/// No time at all.
pub open spec fn zero_timespec() -> Timespec {
    Timespec { tv_sec: 0, tv_nsec: 0 }
}

/// Whether the kernel can be told the length of `timer` at all: whether its
/// whole seconds fit `tv_sec`.
pub open spec fn representable(timer: TimeSpec) -> bool {
    duration_secs(timer.duration()) <= i64::MAX
}

/// Whether `time` is the duration as the kernel takes it: the same seconds
/// and the same nanoseconds.
pub open spec fn is_timespec(time: Timespec, d: Duration) -> bool {
    time.tv_sec == duration_secs(d) && time.tv_nsec == duration_subsec_nanos(d)
}

/// Whether `setting` makes a timer descriptor run as `timer` asks: the time
/// to the first expiration is the timer's duration, and the time between the
/// following ones is the same for an interval and zero, which is none, for a
/// timeout.
pub open spec fn arms(setting: Itimerspec, timer: TimeSpec) -> bool {
    &&& is_timespec(setting.it_value, timer.duration())
    &&& if timer.repeats() {
        setting.it_interval == setting.it_value
    } else {
        setting.it_interval == zero_timespec()
    }
}

/// How the return value of a system call is read: -1 is failure, and
/// `error` tells why.
pub open spec fn status<E>(ret: int, error: E) -> Result<(), E> {
    if ret == -1 {
        Err(error)
    } else {
        Ok(())
    }
}

/// How `Timer::check` reads the return value of the read.
pub open spec fn checked<E>(ret: int, would_block: bool, error: E) -> Result<(), ConsumeError<E>> {
    if ret != -1 {
        Ok(())
    } else if would_block {
        Err(ConsumeError::WouldBlock)
    } else {
        Err(ConsumeError::Io(error))
    }
}

/// A timer file descriptor.
#[derive(Debug)]
pub struct Timer {
    tfd: i32,
}

impl Timer {
    /// The descriptor.
    pub closed spec fn fd(&self) -> i32 {
        self.tfd
    }

    /// Takes what `timerfd_create` returned: the new descriptor, or -1, in
    /// which case `error` tells why the kernel refused.
    pub fn new<E>(tfd: i32, error: E) -> (timer: Result<Timer, E>)
        ensures
            tfd == -1 ==> timer == Err::<Timer, E>(error),
            tfd != -1 ==> timer is Ok && timer->Ok_0.fd() == tfd,
    {
        if tfd == -1 {
            Err(error)
        } else {
            Ok(Timer { tfd })
        }
    }

    /// The descriptor, to register, read and close it.
    pub fn as_raw_fd(&self) -> (fd: i32)
        ensures
            fd == self.fd(),
    {
        self.tfd
    }

    /// The setting to hand to `timerfd_settime` so that the timer runs as
    /// `timer` asks, unless the timer is longer than a setting can say.
    ///
    /// A timeout has no interval, so that it fires once; an interval has
    /// its period both as the time to the first expiration and as the time
    /// between the following ones.
    pub fn set(&mut self, timer: TimeSpec) -> (setting: Result<Itimerspec, TooLong>)
        ensures
            representable(timer) ==> setting is Ok && arms(setting->Ok_0, timer),
            !representable(timer) ==> setting == Err::<Itimerspec, TooLong>(TooLong),
            final(self).fd() == old(self).fd(),
    {
        let (time, repeats) = match timer {
            TimeSpec::Timeout(delay) => (delay, false),
            TimeSpec::Interval(interval) => (interval, true),
        };
        let secs: u64 = time.as_secs();
        let nanos: u32 = time.subsec_nanos();
        if secs > 0x7fff_ffff_ffff_ffff {
            return Err(TooLong);
        }
        // first expiry
        let it_value = Timespec { tv_sec: secs as i64, tv_nsec: nanos as i64 };
        // subsequent expiry intervals
        let it_interval = if repeats {
            it_value
        } else {
            Timespec { tv_sec: 0, tv_nsec: 0 }
        };
        Ok(Itimerspec { it_interval, it_value })
    }

    /// Takes what `timerfd_settime` returned; on -1, `error` tells why the
    /// kernel refused the setting.
    pub fn armed<E>(&mut self, ret: i32, error: E) -> (armed: Result<(), E>)
        ensures
            armed == status(ret as int, error),
            final(self).fd() == old(self).fd(),
    {
        if ret == -1 {
            Err(error)
        } else {
            Ok(())
        }
    }

    /// Takes what reading the expiration counter returned. On -1, `error`
    /// tells why the read failed, and `would_block` whether the reason is
    /// that nothing is there to read: then the timer has not fired, and the
    /// wakeup was spurious.
    pub fn check<E>(&mut self, ret: isize, would_block: bool, error: E) -> (fired: Result<
        (),
        ConsumeError<E>,
    >)
        ensures
            fired == checked(ret as int, would_block, error),
            final(self).fd() == old(self).fd(),
    {
        if ret != -1 {
            Ok(())
        } else if would_block {
            Err(ConsumeError::WouldBlock)
        } else {
            Err(ConsumeError::Io(error))
        }
    }
}

/// The setting that arms a timer holds its length exactly, in fields that
/// the kernel accepts: neither is negative, and the nanoseconds are less
/// than a second.
pub proof fn lemma_setting_is_exact(setting: Itimerspec, timer: TimeSpec)
    requires
        duration_wf(timer.duration()),
        arms(setting, timer),
    ensures
        0 <= setting.it_value.tv_sec,
        0 <= setting.it_value.tv_nsec < NANOS_PER_SEC,
        setting.it_value.tv_sec * NANOS_PER_SEC + setting.it_value.tv_nsec == duration_nanos(
            timer.duration(),
        ),
        timer.repeats() ==> setting.it_interval == setting.it_value,
        !timer.repeats() ==> setting.it_interval == zero_timespec(),
{
}

/// The time to the first expiration is zero, which would leave the timer
/// disarmed, for a duration of zero only.
pub proof fn lemma_armed_unless_zero(setting: Itimerspec, timer: TimeSpec)
    requires
        arms(setting, timer),
    ensures
        setting.it_value == zero_timespec() <==> duration_is_zero(timer.duration()),
{
}

/// A length that the kernel can be told has exactly one setting that arms
/// it.
pub proof fn lemma_one_setting_arms(first: Itimerspec, second: Itimerspec, timer: TimeSpec)
    requires
        arms(first, timer),
        arms(second, timer),
    ensures
        first == second,
{
}

} // verus!
