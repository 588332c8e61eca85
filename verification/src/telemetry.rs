//! The telemetry fan-out: a registration list of sinks; every recorded
//! signal is delivered to each registered sink.

pub mod sink;

use vstd::prelude::*;

use crate::telemetry::sink::Sink;

verus! {

/// Delivers each recorded signal, with or without a payload, to every
/// registered sink.
#[derive(Clone)]
pub struct Telemetry {
    sinks: Vec<Sink>,
}

impl Telemetry {
    /// How many sinks are registered.
    pub closed spec fn sink_count(&self) -> nat {
        self.sinks@.len()
    }

    /// A fan-out with no sinks registered yet.
    pub fn new() -> (t: Telemetry)
        ensures
            t.sink_count() == 0,
    {
        Telemetry { sinks: Vec::new() }
    }

    /// Register one more sink; signals recorded from now on reach it too.
    pub fn register(&mut self, sink: Sink)
        ensures
            final(self).sink_count() == old(self).sink_count() + 1,
    {
        self.sinks.push(sink);
    }

    /// Record a bare signal with every registered sink; the registration
    /// list itself is untouched.
    pub fn record(&mut self, signal: &str)
        ensures
            final(self).sink_count() == old(self).sink_count(),
    {
        let mut i: usize = 0;
        while i < self.sinks.len()
            invariant
                self.sinks@.len() == old(self).sinks@.len(),
            decreases self.sinks@.len() - i,
        {
            let s = &mut self.sinks[i];
            s.record(signal);
            i += 1;
        }
    }

    /// Record a signal with a structured payload with every registered
    /// sink; the registration list itself is untouched.
    pub fn record_data(&mut self, signal: &str, data: serde_json::Value)
        ensures
            final(self).sink_count() == old(self).sink_count(),
    {
        let mut i: usize = 0;
        while i < self.sinks.len()
            invariant
                self.sinks@.len() == old(self).sinks@.len(),
            decreases self.sinks@.len() - i,
        {
            let copy = data.clone();
            let s = &mut self.sinks[i];
            s.record_data(signal, copy);
            i += 1;
        }
    }
}

} // verus!
