//! A back-off policy that waits the same time after every iteration.

use vstd::prelude::*;

use core::time::Duration;

use crate::back_off::BackOff;
use crate::run_time::duration_nanos;

verus! {

/// Waits a fixed, configured duration regardless of the iteration's yield.
#[derive(Debug)]
pub struct ConstantBackOff {
    duration: Duration,
}

impl ConstantBackOff {
    /// A one-millisecond pause: short enough for quick test runs, long
    /// enough to still back off.
    pub fn new() -> (b: ConstantBackOff)
        ensures
            forall|c: u64| b.wait_nanos(c) == 1000000nat,
    {
        ConstantBackOff { duration: Duration::from_millis(1) }
    }

    /// A pause of the caller's choosing.
    pub fn new_with_duration(duration: Duration) -> (b: ConstantBackOff)
        ensures
            forall|c: u64| b.wait_nanos(c) == duration_nanos(duration),
    {
        ConstantBackOff { duration }
    }

    /// The production default: a tenth of a second between polls.
    pub fn build() -> (b: ConstantBackOff)
        ensures
            forall|c: u64| b.wait_nanos(c) == 100000000nat,
    {
        ConstantBackOff { duration: Duration::from_millis(100) }
    }
}

impl ConstantBackOff {
    /// The configured pause, in nanoseconds.
    pub closed spec fn configured_wait(&self) -> nat {
        duration_nanos(self.duration)
    }
}

impl BackOff for ConstantBackOff {
    open spec fn wait_nanos(&self, iteration_message_count: u64) -> nat {
        self.configured_wait()
    }

    fn duration(&mut self, iteration_message_count: u64) -> (d: Duration) {
        self.duration
    }
}

} // verus!
