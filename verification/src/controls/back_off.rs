//! A yield-sensitive back-off: hurry while the stream is busy, wait while it
//! is idle.

use vstd::prelude::*;

use core::time::Duration;

use crate::back_off::BackOff;
use crate::run_time::duration_nanos;

verus! {

/// Returns zero wait when the last iteration yielded messages, and the
/// configured duration when it yielded none.
pub struct OnNoMessageDataCount {
    duration: Duration,
}

impl OnNoMessageDataCount {
    /// A policy that pauses for `duration` only after empty iterations.
    pub fn new(duration: Duration) -> (b: OnNoMessageDataCount)
        ensures
            forall|c: u64| b.wait_nanos(c) == if c > 0 {
                0nat
            } else {
                duration_nanos(duration)
            },
    {
        OnNoMessageDataCount { duration }
    }
}

impl OnNoMessageDataCount {
    /// The configured idle pause, in nanoseconds.
    pub closed spec fn idle_wait(&self) -> nat {
        duration_nanos(self.duration)
    }
}

impl BackOff for OnNoMessageDataCount {
    open spec fn wait_nanos(&self, iteration_message_count: u64) -> nat {
        if iteration_message_count > 0 {
            0nat
        } else {
            self.idle_wait()
        }
    }

    fn duration(&mut self, iteration_message_count: u64) -> (d: Duration) {
        if iteration_message_count > 0 {
            Duration::from_millis(0)
        } else {
            self.duration
        }
    }
}

} // verus!
