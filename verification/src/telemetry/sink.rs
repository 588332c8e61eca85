//! A telemetry sink: a shared, insert-once record of signals and their
//! optional structured payloads.

use vstd::prelude::*;

use std::sync::Arc;

use vstd::rwlock::{RwLock, RwLockPredicate};

verus! {

#[verifier::external_type_specification]
#[verifier::external_body]
pub struct ExValue(serde_json::Value);

/// Relies on `serde_json::Value`'s derived `Clone`: a deep copy equal to the
/// original value.
pub assume_specification[ <serde_json::Value as Clone>::clone ](v: &serde_json::Value) -> (r:
    serde_json::Value)
    ensures
        r == *v,
;

/// Relies on `serde_json::Value::Null`: the JSON null value, the sink's
/// answer for an absent payload.
#[verifier::external_body]
fn json_null() -> serde_json::Value {
    serde_json::Value::Null
}

/// What one sink has accumulated: signal names in arrival order, each with
/// its optional payload; a signal is kept only the first time it arrives.
pub struct SinkState {
    entries: Vec<(String, Option<serde_json::Value>)>,
}

impl SinkState {
    /// The recorded entries: each signal's characters with its payload.
    pub closed spec fn view_entries(&self) -> Seq<(Seq<char>, Option<serde_json::Value>)> {
        self.entries@.map_values(|e: (String, Option<serde_json::Value>)| (e.0@, e.1))
    }

    /// Whether a signal has been recorded.
    pub open spec fn contains_signal(&self, signal: Seq<char>) -> bool {
        exists|i: int| 0 <= i < self.view_entries().len() && #[trigger] self.view_entries()[i].0
            == signal
    }

    /// No signal is recorded twice: `record` keeps only the first arrival.
    pub open spec fn unique_signals(&self) -> bool {
        forall|i: int, j: int|
            0 <= i < j < self.view_entries().len() ==> #[trigger] self.view_entries()[i].0
                != #[trigger] self.view_entries()[j].0
    }

    /// An empty record.
    pub fn new() -> (s: SinkState)
        ensures
            s.view_entries().len() == 0,
    {
        SinkState { entries: Vec::new() }
    }

    /// The index of a signal, if it was recorded.
    fn find(&self, signal: &String) -> (r: Option<usize>)
        ensures
            match r {
                Some(i) => 0 <= i < self.view_entries().len() && self.view_entries()[i as int].0
                    == signal@,
                None => !self.contains_signal(signal@),
            },
    {
        let mut i: usize = 0;
        while i < self.entries.len()
            invariant
                0 <= i <= self.view_entries().len(),
                self.view_entries().len() == self.entries@.len(),
                forall|k: int| 0 <= k < i ==> #[trigger] self.view_entries()[k].0 != signal@,
            decreases self.entries@.len() - i,
        {
            proof {
                assert(self.view_entries()[i as int].0 == self.entries@[i as int].0@);
            }
            if self.entries[i].0.eq(signal) {
                return Some(i);
            }
            i += 1;
        }
        None
    }

    /// Insert a bare signal if it is absent; a recorded signal is left as it
    /// stands.
    pub fn record_signal(&mut self, signal: &String)
        ensures
            old(self).unique_signals() ==> final(self).unique_signals(),
            old(self).contains_signal(signal@) ==> final(self).view_entries() == old(
                self,
            ).view_entries(),
            !old(self).contains_signal(signal@) ==> final(self).view_entries() == old(
                self,
            ).view_entries().push((signal@, None::<serde_json::Value>)),
    {
        let found = self.find(signal);
        if found.is_none() {
            let ghost before = self.view_entries();
            self.entries.push((signal.clone(), None));
            proof {
                assert(self.view_entries() =~= before.push((signal@, None::<serde_json::Value>)));
            }
        }
    }

    /// Insert a signal with its payload if the signal is absent; a recorded
    /// signal keeps what it first arrived with.
    pub fn record_signal_data(&mut self, signal: &String, data: serde_json::Value)
        ensures
            old(self).unique_signals() ==> final(self).unique_signals(),
            old(self).contains_signal(signal@) ==> final(self).view_entries() == old(
                self,
            ).view_entries(),
            !old(self).contains_signal(signal@) ==> final(self).view_entries() == old(
                self,
            ).view_entries().push((signal@, Some(data))),
    {
        let found = self.find(signal);
        if found.is_none() {
            let ghost before = self.view_entries();
            self.entries.push((signal.clone(), Some(data)));
            proof {
                assert(self.view_entries() =~= before.push((signal@, Some(data))));
            }
        }
    }

    /// Whether the signal was recorded.
    pub fn recorded_signal(&self, signal: &String) -> (r: bool)
        ensures
            r == self.contains_signal(signal@),
    {
        self.find(signal).is_some()
    }

    /// The payload recorded with the signal, or JSON null where the signal
    /// is absent or arrived bare.
    pub fn data_for_signal(&self, signal: &String) -> (r: serde_json::Value)
        requires
            self.unique_signals(),
        ensures
            forall|i: int|
                0 <= i < self.view_entries().len() && #[trigger] self.view_entries()[i].0
                    == signal@ && self.view_entries()[i].1 is Some ==> Some(r)
                    == self.view_entries()[i].1,
    {
        let found = self.find(signal);
        match found {
            Some(i) => {
                proof {
                    assert(self.view_entries()[i as int].1 == self.entries@[i as int].1);
                }
                match &self.entries[i].1 {
                    Some(value) => value.clone(),
                    None => json_null(),
                }
            },
            None => json_null(),
        }
    }
}

/// The lock discipline of a sink: the shared state never records a signal
/// twice.
pub struct SinkInv;

impl RwLockPredicate<SinkState> for SinkInv {
    open spec fn inv(self, v: SinkState) -> bool {
        v.unique_signals()
    }
}

/// A cloneable handle over shared sink storage: tests register one clone
/// with the telemetry fan-out before a run and read the other afterwards.
///
/// The storage is shared between clones, possibly across threads, so the
/// handle's operations promise nothing of the state a later call observes;
/// the state transitions themselves are specified on [`SinkState`].
#[derive(Clone)]
pub struct Sink {
    state: Arc<RwLock<SinkState, SinkInv>>,
}

impl Sink {
    /// A sink that has recorded nothing.
    pub fn new() -> (s: Sink) {
        Sink { state: Arc::new(RwLock::new(SinkState::new(), Ghost(SinkInv))) }
    }

    /// Record a bare signal, keeping the first record of it.
    pub fn record(&mut self, signal: &str) {
        let owned = signal.to_owned();
        let (mut state, handle) = self.state.acquire_write();
        state.record_signal(&owned);
        handle.release_write(state);
    }

    /// Record a signal with a payload, keeping the first record of it.
    pub fn record_data(&mut self, signal: &str, data: serde_json::Value) {
        let owned = signal.to_owned();
        let (mut state, handle) = self.state.acquire_write();
        state.record_signal_data(&owned, data);
        handle.release_write(state);
    }

    /// Whether the signal has been recorded in the shared state this handle
    /// reads.
    pub fn recorded(&self, signal: &str) -> bool {
        let owned = signal.to_owned();
        let read_handle = self.state.acquire_read();
        let r = read_handle.borrow().recorded_signal(&owned);
        read_handle.release_read();
        r
    }

    /// The payload recorded with the signal, or JSON null where the signal
    /// is absent or arrived bare.
    pub fn data_recorded(&self, signal: &str) -> serde_json::Value {
        let owned = signal.to_owned();
        let read_handle = self.state.acquire_read();
        let r = read_handle.borrow().data_for_signal(&owned);
        read_handle.release_read();
        r
    }
}

} // verus!
