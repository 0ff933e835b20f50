//! Timer types: timespec values, timer-handle flags, and the clocks a
//! timer handle can follow.
//!
//! Readiness facilities that take a timeout take it as a timespec, and
//! "no timeout" means block forever; the flat poll alone takes plain
//! milliseconds.

use vstd::prelude::*;

verus! {

/// Nanoseconds per second: the bound a normalized timespec's
/// nanosecond field stays under.
pub const NSEC_PER_SEC: u32 = 1_000_000_000;

/// `TFD_NONBLOCK`: the timer handle is non-blocking.
pub const TFD_NONBLOCK: u32 = 0o4000;
/// `TFD_CLOEXEC`: the timer handle is closed across process-image
/// replacement.
pub const TFD_CLOEXEC: u32 = 0o2000000;
/// `TFD_TIMER_ABSTIME`: the armed expiration is an absolute time.
pub const TFD_TIMER_ABSTIME: u32 = 1;
/// `TFD_TIMER_CANCEL_ON_SET`: cancel when the clock is set.
pub const TFD_TIMER_CANCEL_ON_SET: u32 = 2;

/// A second count and a nanosecond remainder, the native timeout unit
/// of the readiness facilities other than flat poll.
#[derive(Copy, Clone, Eq, PartialEq, Structural, Debug, Hash)]
pub struct Timespec {
    /// Whole seconds.
    pub tv_sec: i64,
    /// Nanoseconds within the second.
    pub tv_nsec: i64,
}

impl Timespec {
    /// A normalized value: a non-negative nanosecond remainder below
    /// one second.
    pub open spec fn normalized(self) -> bool {
        0 <= self.tv_nsec < NSEC_PER_SEC
    }

    /// The whole value in nanoseconds.
    pub open spec fn total_nanoseconds(self) -> int {
        self.tv_sec * (NSEC_PER_SEC as int) + self.tv_nsec
    }

    /// Builds a normalized timespec from a millisecond count, the flat
    /// poll's timeout unit.
    pub fn from_milliseconds(ms: u64) -> (r: Timespec)
        requires
            ms <= i64::MAX as u64,
        ensures
            r.tv_sec == ms / 1000,
            r.tv_nsec == (ms % 1000) * 1_000_000,
            r.normalized(),
            r.total_nanoseconds() == ms * 1_000_000,
    {
        proof {
            vstd::arithmetic::div_mod::lemma_fundamental_div_mod(ms as int, 1000);
        }
        Timespec { tv_sec: (ms / 1000) as i64, tv_nsec: ((ms % 1000) * 1_000_000) as i64 }
    }
}

/// An armed timer: the initial expiration and the period after it.
#[derive(Copy, Clone, Eq, PartialEq, Structural, Debug, Hash)]
pub struct Itimerspec {
    /// The period between expirations; zero disarms repetition.
    pub it_interval: Timespec,
    /// The first expiration; zero disarms the timer.
    pub it_value: Timespec,
}

/// The clocks a timer handle can follow.
#[derive(Copy, Clone, Eq, PartialEq, Structural, Debug, Hash)]
pub enum TimerfdClockId {
    /// `CLOCK_REALTIME`: wall-clock time since the Unix epoch,
    /// externally settable and so not monotonic.
    Realtime,
    /// `CLOCK_MONOTONIC`: an abstract monotonic time, reliable for
    /// durations, stopped while the system is suspended.
    Monotonic,
    /// `CLOCK_BOOTTIME`: as the monotonic clock, but advances while
    /// the system is suspended.
    Boottime,
    /// `CLOCK_REALTIME_ALARM`: as the real-time clock, and can wake a
    /// suspended system.
    RealtimeAlarm,
    /// `CLOCK_BOOTTIME_ALARM`: as the boot-time clock, and can wake a
    /// suspended system.
    BoottimeAlarm,
}

impl TimerfdClockId {
    /// The OS encoding of each clock.
    pub open spec fn raw_spec(self) -> u32 {
        match self {
            TimerfdClockId::Realtime => 0,
            TimerfdClockId::Monotonic => 1,
            TimerfdClockId::Boottime => 7,
            TimerfdClockId::RealtimeAlarm => 8,
            TimerfdClockId::BoottimeAlarm => 9,
        }
    }

    /// Encodes the clock for a timer-creation call.
    pub fn as_raw(self) -> (r: u32)
        ensures
            r == self.raw_spec(),
    {
        match self {
            TimerfdClockId::Realtime => 0,
            TimerfdClockId::Monotonic => 1,
            TimerfdClockId::Boottime => 7,
            TimerfdClockId::RealtimeAlarm => 8,
            TimerfdClockId::BoottimeAlarm => 9,
        }
    }
}

} // verus!
