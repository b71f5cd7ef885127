//! Timers whose timing is left to the operating system.
//!
//! A [`Delay`] completes once, a fixed time after it was created; an
//! [`Interval`] yields every time a fixed period has passed. Neither keeps a
//! clock of its own: each non-zero timer is backed by one kernel timer, a
//! timer file descriptor on Linux and a kqueue timer filter on the BSDs and
//! macOS, and is woken through a reactor when that timer becomes readable.
//!
//! This crate holds the decisions and none of the system calls. A timer is a
//! state machine: it asks for one [`Action`](sys::Action) at a time, the
//! caller performs it against the kernel or the reactor and answers with an
//! [`Event`](sys::Event), and the timer says what comes next. The arguments of
//! the system calls are computed in [`sys::timerfd`] and [`sys::kqueue`], and
//! so is the reading of what the calls return.

pub mod delay;
pub mod duration;
pub mod interval;
pub mod sys;

pub use self::delay::Delay;
pub use self::interval::Interval;
