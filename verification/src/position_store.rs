//! The position store: persists and retrieves the last processed global
//! position for a category, so a rebuilt consumer resumes near where the
//! previous one stopped.

pub mod postgres;

use vstd::prelude::*;

use crate::messaging::get::sat_add;
use crate::MAX_POSITION;

verus! {

/// Telemetry taps of a position store: how often it was read and written.
///
/// `counts_model` is the counter pair `(get_count, put_count)` where the
/// store keeps one locally, and `None` where it does not (the store-backed
/// variant keeps none).
pub trait PositionStoreTelemetry {
    spec fn counts_model(&self) -> Option<(u64, u64)>;

    fn get_count(&self) -> (r: u64)
        ensures
            self.counts_model() matches Some(t) ==> r == t.0,
    ;

    fn record_get(&mut self)
        ensures
            old(self).counts_model() matches Some(t) ==> final(self).counts_model() == Some(
                (sat_add(t.0 as nat, 1), t.1),
            ),
            old(self).counts_model() is None ==> final(self).counts_model() is None,
    ;

    fn put_count(&self) -> (r: u64)
        ensures
            self.counts_model() matches Some(t) ==> r == t.1,
    ;

    fn record_put(&mut self)
        ensures
            old(self).counts_model() matches Some(t) ==> final(self).counts_model() == Some(
                (t.0, sat_add(t.1 as nat, 1)),
            ),
            old(self).counts_model() is None ==> final(self).counts_model() is None,
    ;
}

/// Persists and retrieves the last processed global position.
///
/// `stored_model` is the position `get` will answer with where that is known
/// locally, and `None` where the answer comes from an external store.
pub trait PositionStore: PositionStoreTelemetry {
    spec fn stored_model(&self) -> Option<u64>;

    /// The last stored position, or the store's default where none was
    /// recorded. The answer always fits the store's signed 64-bit positions.
    fn get(&mut self) -> (r: u64)
        ensures
            r <= MAX_POSITION,
            old(self).stored_model() matches Some(s) ==> r == s,
            final(self).stored_model() == old(self).stored_model(),
            old(self).counts_model() matches Some(t) ==> final(self).counts_model() == Some(
                (sat_add(t.0 as nat, 1), t.1),
            ),
            old(self).counts_model() is None ==> final(self).counts_model() is None,
    ;

    /// Record the position, best-effort durable: the consumer tolerates the
    /// loss of the most recently un-flushed positions.
    fn put(&mut self, position: u64)
        ensures
            final(self).stored_model() == old(self).stored_model(),
            old(self).counts_model() matches Some(t) ==> final(self).counts_model() == Some(
                (t.0, sat_add(t.1 as nat, 1)),
            ),
            old(self).counts_model() is None ==> final(self).counts_model() is None,
    ;
}

/// An in-memory position store for tests: `get` answers the seeded position
/// (or zero), `put` only counts, and both taps are observable.
#[derive(Debug)]
pub struct SubstitutePositionStore {
    position: Option<u64>,
    gets: u64,
    puts: u64,
}

impl SubstitutePositionStore {
    /// What `get` answers: the seeded position, or zero before any seed.
    pub closed spec fn stored(&self) -> u64 {
        match self.position {
            Some(p) => p,
            None => 0u64,
        }
    }

    /// The counter pair `(get_count, put_count)`.
    pub closed spec fn counts(&self) -> (u64, u64) {
        (self.gets, self.puts)
    }

    /// A seeded position keeps to the store's signed 64-bit range.
    #[verifier::type_invariant]
    pub closed spec fn wf(&self) -> bool {
        self.stored() <= MAX_POSITION
    }

    /// A store with nothing recorded and zeroed telemetry.
    pub fn new() -> (s: SubstitutePositionStore)
        ensures
            s.stored() == 0,
            s.counts() == (0u64, 0u64),
    {
        SubstitutePositionStore { position: None, gets: 0, puts: 0 }
    }

    /// Seed the position a later `get` will answer.
    pub fn set_position(&mut self, position: u64)
        requires
            position <= MAX_POSITION,
        ensures
            final(self).stored() == position,
            final(self).counts() == old(self).counts(),
    {
        proof {
            use_type_invariant(&*self);
        }
        self.position = Some(position);
    }
}

impl PositionStoreTelemetry for SubstitutePositionStore {
    open spec fn counts_model(&self) -> Option<(u64, u64)> {
        Some(self.counts())
    }

    fn get_count(&self) -> (r: u64) {
        self.gets
    }

    fn record_get(&mut self)
        ensures
            final(self).stored() == old(self).stored(),
    {
        proof {
            use_type_invariant(&*self);
        }
        if self.gets < u64::MAX {
            self.gets = self.gets + 1;
        }
    }

    fn put_count(&self) -> (r: u64) {
        self.puts
    }

    fn record_put(&mut self)
        ensures
            final(self).stored() == old(self).stored(),
    {
        proof {
            use_type_invariant(&*self);
        }
        if self.puts < u64::MAX {
            self.puts = self.puts + 1;
        }
    }
}

impl PositionStore for SubstitutePositionStore {
    open spec fn stored_model(&self) -> Option<u64> {
        Some(self.stored())
    }

    fn get(&mut self) -> (r: u64) {
        proof {
            use_type_invariant(&*self);
        }
        self.record_get();
        match self.position {
            Some(p) => p,
            None => 0,
        }
    }

    fn put(&mut self, position: u64) {
        self.record_put();
    }
}

} // verus!
