//! The runtime clock: abstracts sleeping and imposes an optional wall-clock
//! run limit so that tests stay deterministic.

use vstd::prelude::*;

use core::time::Duration;

verus! {

/// The length of a `Duration` in nanoseconds. `core::time` does not expose
/// the representation to the verifier, so the library names it and states
/// the handful of facts the contracts need.
pub uninterp spec fn duration_nanos(d: Duration) -> nat;

/// Relies on `Duration::from_millis`: a duration of exactly the given number
/// of milliseconds.
pub assume_specification[ Duration::from_millis ](ms: u64) -> (d: Duration)
    ensures
        duration_nanos(d) == ms as nat * 1000000,
;

/// Relies on `Duration::saturating_sub`: subtraction that stops at zero.
pub assume_specification[ Duration::saturating_sub ](a: Duration, b: Duration) -> (d: Duration)
    ensures
        duration_nanos(d) == if duration_nanos(a) >= duration_nanos(b) {
            duration_nanos(a) - duration_nanos(b)
        } else {
            0
        },
;

/// Relies on `Duration::is_zero`: true exactly on the zero-length duration.
pub assume_specification[ Duration::is_zero ](d: &Duration) -> (r: bool)
    ensures
        r == (duration_nanos(*d) == 0),
;

/// The longest span handed to the sleeping call in one piece: one hour,
/// far below any point where a platform clock's deadline arithmetic could
/// overflow.
pub const SLEEP_CHUNK_MILLIS: u64 = 3600000;

/// Relies on `spin_sleep::sleep`: blocks the calling thread for roughly the
/// given duration. Nothing is promised of the time that actually elapses.
/// The span must stay short of the platform's clock horizon: the call
/// computes a deadline as an instant plus the duration, which overflows —
/// and panics — for far-off deadlines.
#[verifier::external_body]
fn os_sleep(duration: Duration)
    requires
        duration_nanos(duration) <= SLEEP_CHUNK_MILLIS as nat * 1000000,
{
    spin_sleep::sleep(duration);
}

/// Abstracts sleeping and carries an optional remaining wall-clock budget.
///
/// `run_limit_model` is the remaining budget: `None` says no limit was set
/// and the clock never asks the worker to stop.
pub trait RunTime: Sized {
    spec fn run_limit_model(&self) -> Option<Duration>;

    /// Account for (and, on a real clock, spend) `duration`: a set run limit
    /// shrinks by the duration, stopping at zero.
    fn sleep(&mut self, duration: Duration)
        ensures
            match old(self).run_limit_model() {
                None => final(self).run_limit_model() is None,
                Some(l) => final(self).run_limit_model() matches Some(l2) && duration_nanos(l2)
                    == if duration_nanos(l) >= duration_nanos(duration) {
                    duration_nanos(l) - duration_nanos(duration)
                } else {
                    0
                },
            },
    ;

    /// Set the remaining wall-clock budget.
    fn set_run_limit(&mut self, total_run_time: Duration)
        ensures
            final(self).run_limit_model() == Some(total_run_time),
    ;

    /// True exactly while no limit is set or some budget remains.
    fn should_continue(&mut self) -> (r: bool)
        ensures
            final(self).run_limit_model() == old(self).run_limit_model(),
            r == match old(self).run_limit_model() {
                None => true,
                Some(l) => duration_nanos(l) > 0,
            },
    ;
}

/// A clock for tests: accounts for sleeps without ever blocking.
pub struct SubstituteRunTime {
    run_limit: Option<Duration>,
}

impl SubstituteRunTime {
    /// A substitute clock with no run limit.
    pub fn new() -> (r: SubstituteRunTime)
        ensures
            r.run_limit_model() is None,
    {
        SubstituteRunTime { run_limit: None }
    }
}

impl RunTime for SubstituteRunTime {
    closed spec fn run_limit_model(&self) -> Option<Duration> {
        self.run_limit
    }

    fn sleep(&mut self, duration: Duration) {
        self.run_limit = match self.run_limit {
            Some(limit) => Some(limit.saturating_sub(duration)),
            None => None,
        };
    }

    fn set_run_limit(&mut self, total_run_time: Duration) {
        self.run_limit = Some(total_run_time);
    }

    fn should_continue(&mut self) -> (r: bool) {
        match &self.run_limit {
            Some(run_limit) => !run_limit.is_zero(),
            None => true,
        }
    }
}

/// The production clock: sleeps for real and accounts for the time spent
/// against any run limit.
#[derive(Debug)]
pub struct SystemRunTime {
    run_limit: Option<Duration>,
}

impl SystemRunTime {
    /// A system clock with no run limit.
    pub fn build() -> (r: SystemRunTime)
        ensures
            r.run_limit_model() is None,
    {
        SystemRunTime { run_limit: None }
    }
}

impl RunTime for SystemRunTime {
    closed spec fn run_limit_model(&self) -> Option<Duration> {
        self.run_limit
    }

    #[verifier::loop_isolation(false)]
    fn sleep(&mut self, duration: Duration) {
        self.run_limit = match self.run_limit {
            Some(limit) => Some(limit.saturating_sub(duration)),
            None => None,
        };

        // sleep in bounded pieces: the sleeping call must not be handed a
        // span near the platform's clock horizon
        let chunk = Duration::from_millis(SLEEP_CHUNK_MILLIS);
        let mut remaining = duration;
        while !remaining.is_zero()
            decreases duration_nanos(remaining),
        {
            let over = remaining.saturating_sub(chunk);
            if over.is_zero() {
                os_sleep(remaining);
                break ;
            } else {
                os_sleep(chunk);
                remaining = over;
            }
        }
    }

    fn set_run_limit(&mut self, total_run_time: Duration) {
        self.run_limit = Some(total_run_time);
    }

    fn should_continue(&mut self) -> (r: bool) {
        match &self.run_limit {
            Some(run_limit) => !run_limit.is_zero(),
            None => true,
        }
    }
}

} // verus!
