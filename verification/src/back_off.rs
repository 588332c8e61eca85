//! The back-off policy interface: after every iteration the consumer asks
//! the policy how long to pause, handing it the iteration's message count.

pub mod constant;

use vstd::prelude::*;

use core::time::Duration;

use crate::run_time::duration_nanos;

verus! {

/// Computes a wait duration from the number of messages the last iteration
/// yielded.
///
/// `wait_nanos` is the policy's choice in nanoseconds; a policy is
/// deterministic per input and keeps its choice across calls.
pub trait BackOff: Sized {
    spec fn wait_nanos(&self, iteration_message_count: u64) -> nat;

    fn duration(&mut self, iteration_message_count: u64) -> (d: Duration)
        ensures
            duration_nanos(d) == old(self).wait_nanos(iteration_message_count),
            forall|c: u64| final(self).wait_nanos(c) == old(self).wait_nanos(c),
    ;
}

} // verus!
