//! A category-stream consumer: a long-running worker that polls an
//! append-only message store for messages published under a named category,
//! dispatches each message to in-process handlers in order, and durably
//! tracks its progress so that a restarted consumer resumes near the last
//! processed position.

pub mod back_off;
pub mod controls;
pub mod messaging;
pub mod position_store;
pub mod run_time;
pub mod session;
pub mod settings;
pub mod telemetry;

use vstd::prelude::*;

use std::sync::atomic::{AtomicBool, AtomicU64, Ordering};
use std::sync::Arc;

use crate::back_off::constant::ConstantBackOff;
use crate::back_off::BackOff;
use crate::messaging::get::{
    positions_of, sat_add, strictly_increasing, Get, GetTelemetry, SubstituteGetter,
};
use crate::messaging::postgres::{Category, CategoryError};
use crate::messaging::{HandleError, Handler, MessageData};
use crate::position_store::postgres::PostgresPositionStore;
use crate::position_store::{PositionStore, PositionStoreTelemetry, SubstitutePositionStore};
use crate::run_time::{RunTime, SubstituteRunTime, SystemRunTime};
use crate::settings::Settings;

verus! {

/// The greatest global position the consumer will track: positions travel to
/// the store as signed 64-bit integers, so the core keeps them within
/// `i64::MAX`.
pub const MAX_POSITION: u64 = 0x7fff_ffff_ffff_ffff;

/// Relies on `Arc::clone`: another handle to the same allocation, equal to
/// the original.
#[verifier::external_body]
fn share<T>(v: &Arc<T>) -> (r: Arc<T>)
    ensures
        r == *v,
{
    Arc::clone(v)
}

/// The position-update counter after one more successfully handled message:
/// it climbs by one and falls back to zero whenever it reaches the interval.
pub open spec fn counter_step(counter: u64, interval: u64) -> u64 {
    if counter + 1 >= interval {
        0u64
    } else {
        (counter + 1) as u64
    }
}

/// Whether handling one more message flushes the position: exactly when the
/// climbing counter reaches the interval.
pub open spec fn flush_step(counter: u64, interval: u64) -> bool {
    counter + 1 >= interval
}

/// The position-update counter after `k` more successfully handled messages.
pub open spec fn counter_after(counter: u64, k: nat, interval: u64) -> u64
    decreases k,
{
    if k == 0 {
        counter
    } else {
        counter_step(counter_after(counter, (k - 1) as nat, interval), interval)
    }
}

/// How many position flushes `k` successfully handled messages cause,
/// starting from the given counter.
pub open spec fn flushes_during(counter: u64, k: nat, interval: u64) -> nat
    decreases k,
{
    if k == 0 {
        0nat
    } else {
        flushes_during(counter, (k - 1) as nat, interval) + if flush_step(
            counter_after(counter, (k - 1) as nat, interval),
            interval,
        ) {
            1nat
        } else {
            0nat
        }
    }
}

/// An owned consumer: the poll loop's state and every collaborator it
/// coordinates. While a worker drives it, the whole value lives in the
/// worker's context; only the *active* flag and the *iterations* counter are
/// shared with the outside through [`Consumer::active_cell`] and
/// [`Consumer::iterations_cell`].
pub struct Consumer<G: Get, B: BackOff, R: RunTime, P: PositionStore, H: Handler> {
    run_time: R,
    category: String,
    handlers: Vec<H>,
    active: Arc<AtomicBool>,
    iterations: Arc<AtomicU64>,
    get: G,
    back_off: B,
    position: u64,
    position_update_counter: u64,
    position_store: P,
    settings: Settings,
    dispatched: Ghost<Seq<u64>>,
    offered: Ghost<Seq<Seq<u64>>>,
    flushed: Ghost<Option<u64>>,
}

impl<G: Get, B: BackOff, R: RunTime, P: PositionStore, H: Handler> Consumer<G, B, R, P, H> {
    /// The global positions of the messages that completed every handler in
    /// this run, in dispatch order.
    pub closed spec fn dispatched_log(&self) -> Seq<u64> {
        self.dispatched@
    }

    /// The next global position the consumer will request.
    pub closed spec fn current_position(&self) -> u64 {
        self.position
    }

    /// How many messages were handled since the last position flush.
    pub closed spec fn update_counter(&self) -> u64 {
        self.position_update_counter
    }

    /// The configured position-update interval.
    pub closed spec fn update_interval(&self) -> u64 {
        self.settings.position_update_interval
    }

    /// The getter the consumer polls.
    pub closed spec fn getter(&self) -> G {
        self.get
    }

    /// The position store the consumer flushes to.
    pub closed spec fn store(&self) -> P {
        self.position_store
    }

    /// The clock the consumer sleeps on.
    pub closed spec fn clock(&self) -> R {
        self.run_time
    }

    /// The back-off policy the consumer consults.
    pub closed spec fn policy(&self) -> B {
        self.back_off
    }

    /// The category the consumer subscribes to.
    pub closed spec fn category_name(&self) -> Seq<char> {
        self.category@
    }

    /// How many handlers are registered.
    pub closed spec fn handler_count(&self) -> nat {
        self.handlers@.len()
    }

    /// The registered handlers, in declaration order.
    pub closed spec fn handler_seq(&self) -> Seq<H> {
        self.handlers@
    }

    /// The global positions each handler, in declaration order, has been
    /// offered in this run, in the order they were offered.
    pub closed spec fn offered_log(&self) -> Seq<Seq<u64>> {
        self.offered@
    }

    /// The position most recently flushed to the position store in this run,
    /// if any.
    pub closed spec fn last_flushed(&self) -> Option<u64> {
        self.flushed@
    }

    /// The shared *active* flag.
    pub closed spec fn active_ref(&self) -> Arc<AtomicBool> {
        self.active
    }

    /// The shared *iterations* counter.
    pub closed spec fn iterations_ref(&self) -> Arc<AtomicU64> {
        self.iterations
    }

    /// The consumer's running invariant: the requested position stays in the
    /// store's signed range, the counter can still climb, and the dispatch
    /// log ascends strictly below the requested position.
    pub open spec fn wf(&self) -> bool {
        &&& self.current_position() <= MAX_POSITION
        &&& self.update_counter() < u64::MAX
        &&& strictly_increasing(self.dispatched_log())
        &&& forall|i: int|
            0 <= i < self.dispatched_log().len() ==> #[trigger] self.dispatched_log()[i]
                < self.current_position()
        &&& self.offered_log().len() == self.handler_count()
        &&& match self.last_flushed() {
            Some(f) => f < self.current_position(),
            None => true,
        }
    }

    /// Append a handler to the ordered list; it will see every message after
    /// each handler added before it.
    pub fn add_handler(self, handler: H) -> (c: Self)
        ensures
            c.handler_count() == self.handler_count() + 1,
            c.handler_seq() == self.handler_seq().push(handler),
            c.offered_log() == self.offered_log().push(Seq::<u64>::empty()),
            c.last_flushed() == self.last_flushed(),
            c.active_ref() == self.active_ref(),
            c.iterations_ref() == self.iterations_ref(),
            c.current_position() == self.current_position(),
            c.update_counter() == self.update_counter(),
            c.update_interval() == self.update_interval(),
            c.dispatched_log() == self.dispatched_log(),
            c.getter() == self.getter(),
            c.store() == self.store(),
            c.clock() == self.clock(),
            c.policy() == self.policy(),
            c.category_name() == self.category_name(),
            c.wf() == self.wf(),
    {
        let mut this = self;
        this.handlers.push(handler);
        proof {
            this.offered@ = this.offered@.push(Seq::<u64>::empty());
        }
        this
    }

    /// Replace the settings value.
    pub fn with_settings(self, settings: Settings) -> (c: Self)
        ensures
            c.update_interval() == settings.position_update_interval,
            c.handler_count() == self.handler_count(),
            c.handler_seq() == self.handler_seq(),
            c.offered_log() == self.offered_log(),
            c.last_flushed() == self.last_flushed(),
            c.active_ref() == self.active_ref(),
            c.iterations_ref() == self.iterations_ref(),
            c.current_position() == self.current_position(),
            c.update_counter() == self.update_counter(),
            c.dispatched_log() == self.dispatched_log(),
            c.getter() == self.getter(),
            c.store() == self.store(),
            c.clock() == self.clock(),
            c.policy() == self.policy(),
            c.category_name() == self.category_name(),
            c.wf() == self.wf(),
    {
        let mut this = self;
        this.settings = settings;
        this
    }

    /// Replace the back-off policy, keeping every other collaborator; the
    /// consumer's type follows the new policy's.
    pub fn with_back_off<B2: BackOff>(self, back_off: B2) -> (c: Consumer<G, B2, R, P, H>)
        ensures
            c.policy() == back_off,
            c.handler_count() == self.handler_count(),
            c.handler_seq() == self.handler_seq(),
            c.offered_log() == self.offered_log(),
            c.last_flushed() == self.last_flushed(),
            c.active_ref() == self.active_ref(),
            c.iterations_ref() == self.iterations_ref(),
            c.current_position() == self.current_position(),
            c.update_counter() == self.update_counter(),
            c.update_interval() == self.update_interval(),
            c.dispatched_log() == self.dispatched_log(),
            c.getter() == self.getter(),
            c.store() == self.store(),
            c.clock() == self.clock(),
            c.category_name() == self.category_name(),
            c.wf() == self.wf(),
    {
        Consumer {
            run_time: self.run_time,
            category: self.category,
            handlers: self.handlers,
            active: self.active,
            iterations: self.iterations,
            get: self.get,
            back_off,
            position: self.position,
            position_update_counter: self.position_update_counter,
            position_store: self.position_store,
            settings: self.settings,
            dispatched: self.dispatched,
            offered: self.offered,
            flushed: self.flushed,
        }
    }

    /// Load the starting position from the position store. This begins the
    /// consumer's processing lifetime: the dispatch log starts over, and the
    /// first fetch will request exactly the loaded position.
    pub fn initialize(&mut self)
        requires
            old(self).wf(),
        ensures
            final(self).wf(),
            final(self).dispatched_log().len() == 0,
            final(self).last_flushed() is None,
            final(self).offered_log().len() == old(self).offered_log().len(),
            forall|j: int|
                0 <= j < final(self).offered_log().len() ==> #[trigger] final(self).offered_log()[j] == Seq::<u64>::empty(),
            final(self).handler_seq() == old(self).handler_seq(),
            final(self).active_ref() == old(self).active_ref(),
            final(self).iterations_ref() == old(self).iterations_ref(),
            old(self).store().stored_model() matches Some(s) ==> final(self).current_position()
                == s,
            final(self).store().stored_model() == old(self).store().stored_model(),
            old(self).store().counts_model() matches Some(t) ==> final(self).store().counts_model()
                == Some((sat_add(t.0 as nat, 1), t.1)),
            old(self).store().counts_model() is None ==> final(self).store().counts_model()
                is None,
            final(self).update_counter() == old(self).update_counter(),
            final(self).update_interval() == old(self).update_interval(),
            final(self).getter() == old(self).getter(),
            final(self).clock() == old(self).clock(),
            final(self).policy() == old(self).policy(),
            final(self).handler_count() == old(self).handler_count(),
            final(self).category_name() == old(self).category_name(),
    {
        self.position = self.position_store.get();
        proof {
            self.dispatched@ = Seq::<u64>::empty();
            self.offered@ = Seq::<Seq<u64>>::new(self.offered@.len(), |j: int| Seq::<u64>::empty());
            self.flushed@ = None;
        }
    }

    /// Advance the next requested position past a fully handled message and
    /// flush it to the position store every `position_update_interval`
    /// messages.
    fn update_position(&mut self, position: u64)
        requires
            old(self).wf(),
            position < MAX_POSITION,
        ensures
            final(self).current_position() == position + 1,
            final(self).update_counter() == counter_step(
                old(self).update_counter(),
                old(self).update_interval(),
            ),
            final(self).last_flushed() == if flush_step(
                old(self).update_counter(),
                old(self).update_interval(),
            ) {
                Some(position)
            } else {
                old(self).last_flushed()
            },
            old(self).store().counts_model() matches Some(t) ==> final(self).store().counts_model()
                == Some(
                (
                    t.0,
                    if flush_step(old(self).update_counter(), old(self).update_interval()) {
                        sat_add(t.1 as nat, 1)
                    } else {
                        t.1
                    },
                ),
            ),
            old(self).store().counts_model() is None ==> final(self).store().counts_model()
                is None,
            final(self).store().stored_model() == old(self).store().stored_model(),
            final(self).dispatched_log() == old(self).dispatched_log(),
            final(self).offered_log() == old(self).offered_log(),
            final(self).handler_seq() == old(self).handler_seq(),
            final(self).active_ref() == old(self).active_ref(),
            final(self).iterations_ref() == old(self).iterations_ref(),
            final(self).update_interval() == old(self).update_interval(),
            final(self).getter() == old(self).getter(),
            final(self).clock() == old(self).clock(),
            final(self).policy() == old(self).policy(),
            final(self).handler_count() == old(self).handler_count(),
            final(self).category_name() == old(self).category_name(),
    {
        self.position = position + 1;
        self.position_update_counter = self.position_update_counter + 1;
        if self.position_update_counter >= self.settings.position_update_interval {
            self.position_store.put(position);
            self.position_update_counter = 0;
            proof {
                self.flushed@ = Some(position);
            }
        }
    }

    /// Whether the consumer has been marked inactive. The flag lives in a
    /// cell shared with the consumer's handle, possibly across threads, so
    /// no more can be said of the value than that a call returns it.
    pub fn stopped(&self) -> bool {
        !self.active.load(Ordering::SeqCst)
    }

    /// How many poll iterations have been entered. The counter lives in a
    /// cell shared with the consumer's handle, so its value is outside this
    /// contract.
    pub fn iterations(&self) -> u64 {
        self.iterations.load(Ordering::SeqCst)
    }

    /// Count one more poll iteration in the shared counter, wrapping only at
    /// the top of `u64`.
    fn increment_iterations(&mut self)
        ensures
            *final(self) == *old(self),
    {
        self.iterations.fetch_add(1, Ordering::SeqCst);
    }

    /// Mark the consumer inactive in the shared flag; safe to repeat. The
    /// worker driver calls this on every exit path, clean or failed.
    pub fn set_inactive(&mut self)
        ensures
            *final(self) == *old(self),
    {
        self.active.store(false, Ordering::SeqCst);
    }

    /// Another handle to the shared *active* flag, for a worker driver that
    /// must observe or clear it from outside the consumer value.
    pub fn active_cell(&self) -> (r: Arc<AtomicBool>)
        ensures
            r == self.active_ref(),
    {
        share(&self.active)
    }

    /// Another handle to the shared *iterations* counter.
    pub fn iterations_cell(&self) -> (r: Arc<AtomicU64>)
        ensures
            r == self.iterations_ref(),
    {
        share(&self.iterations)
    }

    /// The getter, for inspection.
    pub fn get(&self) -> (r: &G)
        ensures
            *r == self.getter(),
    {
        &self.get
    }

    /// The getter, for test arrangement (queueing messages into a
    /// substitute).
    pub fn get_mut(&mut self) -> (r: &mut G)
        ensures
            *r == old(self).getter(),
            final(self).getter() == *final(r),
            final(self).offered_log() == old(self).offered_log(),
            final(self).handler_seq() == old(self).handler_seq(),
            final(self).active_ref() == old(self).active_ref(),
            final(self).iterations_ref() == old(self).iterations_ref(),
            final(self).last_flushed() == old(self).last_flushed(),
            final(self).current_position() == old(self).current_position(),
            final(self).update_counter() == old(self).update_counter(),
            final(self).update_interval() == old(self).update_interval(),
            final(self).dispatched_log() == old(self).dispatched_log(),
            final(self).store() == old(self).store(),
            final(self).clock() == old(self).clock(),
            final(self).policy() == old(self).policy(),
            final(self).handler_count() == old(self).handler_count(),
            final(self).category_name() == old(self).category_name(),
    {
        &mut self.get
    }

    /// The runtime clock, for configuring a run limit.
    pub fn run_time_mut(&mut self) -> (r: &mut R)
        ensures
            *r == old(self).clock(),
            final(self).clock() == *final(r),
            final(self).offered_log() == old(self).offered_log(),
            final(self).handler_seq() == old(self).handler_seq(),
            final(self).active_ref() == old(self).active_ref(),
            final(self).iterations_ref() == old(self).iterations_ref(),
            final(self).last_flushed() == old(self).last_flushed(),
            final(self).current_position() == old(self).current_position(),
            final(self).update_counter() == old(self).update_counter(),
            final(self).update_interval() == old(self).update_interval(),
            final(self).dispatched_log() == old(self).dispatched_log(),
            final(self).getter() == old(self).getter(),
            final(self).store() == old(self).store(),
            final(self).policy() == old(self).policy(),
            final(self).handler_count() == old(self).handler_count(),
            final(self).category_name() == old(self).category_name(),
    {
        &mut self.run_time
    }

    /// The position store, for inspection.
    pub fn position_store(&self) -> (r: &P)
        ensures
            *r == self.store(),
    {
        &self.position_store
    }

    /// The position store, for test arrangement (seeding a position).
    pub fn position_store_mut(&mut self) -> (r: &mut P)
        ensures
            *r == old(self).store(),
            final(self).store() == *final(r),
            final(self).offered_log() == old(self).offered_log(),
            final(self).handler_seq() == old(self).handler_seq(),
            final(self).active_ref() == old(self).active_ref(),
            final(self).iterations_ref() == old(self).iterations_ref(),
            final(self).last_flushed() == old(self).last_flushed(),
            final(self).current_position() == old(self).current_position(),
            final(self).update_counter() == old(self).update_counter(),
            final(self).update_interval() == old(self).update_interval(),
            final(self).dispatched_log() == old(self).dispatched_log(),
            final(self).getter() == old(self).getter(),
            final(self).clock() == old(self).clock(),
            final(self).policy() == old(self).policy(),
            final(self).handler_count() == old(self).handler_count(),
            final(self).category_name() == old(self).category_name(),
    {
        &mut self.position_store
    }

    /// One pacing step of the poll loop, taken after an iteration that
    /// yielded `iteration_message_count` messages: consult the back-off
    /// policy, sleep the chosen duration on the runtime clock, and say
    /// whether the remaining run limit allows another iteration. The worker
    /// driver calls this between iterations.
    pub fn pace(&mut self, iteration_message_count: u64) -> (r: bool)
        ensures
            ({
                let wait = old(self).policy().wait_nanos(iteration_message_count);
                match old(self).clock().run_limit_model() {
                    None => final(self).clock().run_limit_model() is None && r,
                    Some(l) => {
                        &&& final(self).clock().run_limit_model() matches Some(l2)
                            && crate::run_time::duration_nanos(l2)
                            == if crate::run_time::duration_nanos(l) >= wait {
                            crate::run_time::duration_nanos(l) - wait
                        } else {
                            0
                        }
                        &&& r == (if crate::run_time::duration_nanos(l) >= wait {
                            crate::run_time::duration_nanos(l) - wait
                        } else {
                            0
                        } > 0)
                    },
                }
            }),
            forall|c: u64| final(self).policy().wait_nanos(c) == old(self).policy().wait_nanos(c),
            final(self).offered_log() == old(self).offered_log(),
            final(self).handler_seq() == old(self).handler_seq(),
            final(self).active_ref() == old(self).active_ref(),
            final(self).iterations_ref() == old(self).iterations_ref(),
            final(self).last_flushed() == old(self).last_flushed(),
            final(self).current_position() == old(self).current_position(),
            final(self).update_counter() == old(self).update_counter(),
            final(self).update_interval() == old(self).update_interval(),
            final(self).dispatched_log() == old(self).dispatched_log(),
            final(self).getter() == old(self).getter(),
            final(self).store() == old(self).store(),
            final(self).handler_count() == old(self).handler_count(),
            final(self).category_name() == old(self).category_name(),
            final(self).wf() == old(self).wf(),
    {
        let wait_time = self.back_off.duration(iteration_message_count);
        self.run_time.sleep(wait_time);
        self.run_time.should_continue()
    }

    /// Offer one message to every handler in declaration order. Only when
    /// all handlers accept does the consumer advance: the message joins the
    /// dispatch log, the position moves past it, and the flush counter
    /// steps. A rejection stops the offers at the rejecting handler and
    /// leaves position, counter, log and store exactly as they were.
    #[verifier::loop_isolation(false)]
    fn handle_message(&mut self, message_data: MessageData) -> (r: Result<(), HandleError>)
        requires
            old(self).wf(),
            old(self).current_position() <= message_data.global_position < MAX_POSITION,
        ensures
            final(self).wf(),
            final(self).offered_log().len() == old(self).offered_log().len(),
            // handler state may change, but each handler's predicted outcome
            // is the one it had
            forall|j: int|
                0 <= j < final(self).handler_seq().len() ==> #[trigger] final(self).handler_seq()[j].outcome_model() == old(self).handler_seq()[j].outcome_model(),
            // when every handler predictably accepts, the message goes through
            (forall|j: int|
                0 <= j < old(self).handler_seq().len() ==> #[trigger] old(self).handler_seq()[j].outcome_model() == Some(true)) ==> r is Ok,
            // a handler that predictably rejects stops every message
            (exists|j: int|
                0 <= j < old(self).handler_seq().len() && #[trigger] old(self).handler_seq()[j].outcome_model() == Some(false)) ==> r is Err,
            // a handler's rejection is its own failure
            r matches Err(e) ==> e is HandlerError,
            r is Ok ==> {
                &&& final(self).dispatched_log() == old(self).dispatched_log().push(
                    message_data.global_position,
                )
                &&& (forall|j: int|
                    0 <= j < final(self).offered_log().len()
                        ==> #[trigger] final(self).offered_log()[j] == old(self).offered_log()[j].push(
                        message_data.global_position,
                    ))
                &&& final(self).current_position() == message_data.global_position + 1
                &&& final(self).update_counter() == counter_step(
                    old(self).update_counter(),
                    old(self).update_interval(),
                )
                &&& (old(self).store().counts_model() matches Some(t) ==> final(self).store().counts_model() == Some(
                    (
                        t.0,
                        if flush_step(old(self).update_counter(), old(self).update_interval()) {
                            sat_add(t.1 as nat, 1)
                        } else {
                            t.1
                        },
                    ),
                ))
            },
            r is Err ==> {
                &&& final(self).dispatched_log() == old(self).dispatched_log()
                &&& final(self).current_position() == old(self).current_position()
                &&& final(self).update_counter() == old(self).update_counter()
                &&& final(self).store() == old(self).store()
                &&& final(self).last_flushed() == old(self).last_flushed()
                // the message reached the handlers up to and including the
                // rejecting one, each exactly once, and no handler after it
                &&& exists|f: int|
                    {
                        &&& 0 <= f < old(self).handler_seq().len()
                        &&& #[trigger] final(self).offered_log()[f] == old(self).offered_log()[f].push(
                            message_data.global_position,
                        )
                        &&& (forall|j: int|
                            0 <= j <= f ==> #[trigger] final(self).offered_log()[j] == old(self).offered_log()[j].push(message_data.global_position))
                        &&& (forall|j: int|
                            f < j < final(self).offered_log().len() ==> #[trigger] final(self).offered_log()[j] == old(self).offered_log()[j])
                    }
            },
            old(self).store().counts_model() is None ==> final(self).store().counts_model()
                is None,
            final(self).store().stored_model() == old(self).store().stored_model(),
            final(self).update_interval() == old(self).update_interval(),
            final(self).getter() == old(self).getter(),
            final(self).clock() == old(self).clock(),
            final(self).policy() == old(self).policy(),
            final(self).handler_count() == old(self).handler_count(),
            final(self).category_name() == old(self).category_name(),
            final(self).active_ref() == old(self).active_ref(),
            final(self).iterations_ref() == old(self).iterations_ref(),
    {
        let count = self.handlers.len();
        let mut i: usize = 0;
        while i < count
            invariant
                0 <= i <= count,
                count == self.handlers@.len(),
                self.position == old(self).position,
                self.position_update_counter == old(self).position_update_counter,
                self.dispatched == old(self).dispatched,
                self.get == old(self).get,
                self.position_store == old(self).position_store,
                self.run_time == old(self).run_time,
                self.back_off == old(self).back_off,
                self.settings == old(self).settings,
                self.category == old(self).category,
                self.active == old(self).active,
                self.iterations == old(self).iterations,
                self.flushed == old(self).flushed,
                self.offered@.len() == old(self).offered@.len(),
                forall|j: int|
                    0 <= j < self.handlers@.len() ==> #[trigger] self.handlers@[j].outcome_model()
                        == old(self).handlers@[j].outcome_model(),
                forall|j: int|
                    0 <= j < i ==> #[trigger] old(self).handler_seq()[j].outcome_model() != Some(
                        false,
                    ),
                forall|j: int|
                    0 <= j < self.offered@.len() ==> #[trigger] self.offered@[j] == if j < i {
                        old(self).offered@[j].push(message_data.global_position)
                    } else {
                        old(self).offered@[j]
                    },
            decreases count - i,
        {
            let outcome = self.handlers[i].handle(message_data.clone());
            proof {
                self.offered@ = self.offered@.update(
                    i as int,
                    self.offered@[i as int].push(message_data.global_position),
                );
            }
            if let Err(error) = outcome {
                proof {
                    assert(0 <= i < old(self).handler_seq().len());
                    assert(self.offered@[i as int] == old(self).offered@[i as int].push(
                        message_data.global_position,
                    ));
                    assert(forall|j: int|
                        0 <= j <= i ==> #[trigger] self.offered@[j] == old(self).offered@[j].push(
                            message_data.global_position,
                        ));
                    assert(forall|j: int|
                        i < j < self.offered@.len() ==> #[trigger] self.offered@[j] == old(
                            self,
                        ).offered@[j]);
                }
                return Err(error);
            }
            i += 1;
        }
        self.update_position(message_data.global_position);
        proof {
            self.dispatched@ = self.dispatched@.push(message_data.global_position);
        }
        Ok(())
    }

    /// One poll-loop iteration: count it, fetch the next batch at the
    /// current position, and offer each returned message to every handler in
    /// declaration order, checkpointing progress as messages complete.
    /// Returns how many messages the iteration fetched, or the first error a
    /// handler or the getter raised.
    ///
    /// The iterations counter itself lives in a cell shared with the
    /// consumer's handle, so its value is not part of this contract.
    #[verifier::loop_isolation(false)]
    #[verifier::rlimit(100)]
    #[verifier::spinoff_prover]
    pub fn tick(&mut self) -> (r: Result<u64, HandleError>)
        requires
            old(self).wf(),
        ensures
            final(self).wf(),
            // the dispatch log only grows, in order, at or past the position
            // this iteration started from
            final(self).dispatched_log().len() >= old(self).dispatched_log().len(),
            final(self).dispatched_log().take(old(self).dispatched_log().len() as int) == old(self).dispatched_log(),
            forall|i: int|
                old(self).dispatched_log().len() <= i < final(self).dispatched_log().len()
                    ==> #[trigger] final(self).dispatched_log()[i]
                    >= old(self).current_position(),
            // the position tracks the last fully handled message
            final(self).current_position() == if final(self).dispatched_log().len() == old(self).dispatched_log().len() {
                old(self).current_position()
            } else {
                (final(self).dispatched_log().last() + 1) as u64
            },
            // the flush counter and the store's put count follow the number
            // of newly handled messages
            ({
                let news = final(self).dispatched_log().len() - old(self).dispatched_log().len();
                &&& final(self).update_counter() == counter_after(
                    old(self).update_counter(),
                    news as nat,
                    old(self).update_interval(),
                )
                &&& (old(self).store().counts_model() matches Some(t) ==> final(self).store().counts_model() == Some(
                    (
                        t.0,
                        sat_add(
                            t.1 as nat,
                            flushes_during(
                                old(self).update_counter(),
                                news as nat,
                                old(self).update_interval(),
                            ),
                        ),
                    ),
                ))
            }),
            // every handler was offered every completed message, in batch
            // order, plus at most one further message — the rejected one —
            // which follows the completed ones and reaches the handlers in
            // declaration order up to the rejecting one
            final(self).offered_log().len() == old(self).offered_log().len(),
            ({
                let news = final(self).dispatched_log().len() - old(self).dispatched_log().len();
                let handled = final(self).dispatched_log().skip(
                    old(self).dispatched_log().len() as int,
                );
                &&& (forall|j: int|
                    0 <= j < final(self).offered_log().len() ==> #[trigger] final(self).offered_log()[j].take(
                        old(self).offered_log()[j].len() as int + news,
                    ) == old(self).offered_log()[j] + handled)
                &&& (forall|j: int|
                    0 <= j < final(self).offered_log().len() ==> old(self).offered_log()[j].len()
                        + news <= #[trigger] final(self).offered_log()[j].len() <= old(self).offered_log()[j].len() + news + 1)
                &&& (forall|j: int|
                    0 <= j < final(self).offered_log().len() && #[trigger] final(self).offered_log()[j].len() == old(self).offered_log()[j].len() + news + 1 ==> {
                        &&& final(self).offered_log()[j].last() >= old(self).current_position()
                        &&& final(self).offered_log()[j].last() < MAX_POSITION
                        &&& (news > 0 ==> final(self).offered_log()[j].last() > final(self).dispatched_log().last())
                    })
                &&& (forall|j1: int, j2: int|
                    0 <= j1 < j2 < final(self).offered_log().len() && #[trigger] final(self).offered_log()[j2].len() == old(self).offered_log()[j2].len() + news + 1
                        ==> #[trigger] final(self).offered_log()[j1].len() == old(self).offered_log()[j1].len() + news + 1)
            }),
            // handler state may change, but each handler's predicted outcome
            // is the one it had
            forall|j: int|
                0 <= j < final(self).handler_seq().len() ==> #[trigger] final(self).handler_seq()[j].outcome_model() == old(self).handler_seq()[j].outcome_model(),
            // a successful iteration handled exactly the fetched batch and
            // offered it to every handler exactly once
            r matches Ok(k) ==> {
                let handled = final(self).dispatched_log().skip(
                    old(self).dispatched_log().len() as int,
                );
                &&& final(self).dispatched_log().len() == old(self).dispatched_log().len() + k
                &&& (forall|j: int|
                    0 <= j < final(self).offered_log().len() ==> #[trigger] final(self).offered_log()[j] == old(self).offered_log()[j] + handled)
            },
            // the worker's terminal errors keep the spec's taxonomy: a fetch
            // that failed, or a handler that rejected
            r matches Err(e) ==> e is HandlerError || e is GetError,
            // a rejected message still reached the first handler: on a
            // handler failure the first handler's log carries the extra offer
            r matches Err(HandleError::HandlerError(he)) && old(self).handler_count() > 0
                ==> final(self).offered_log()[0].len() == old(self).offered_log()[0].len() + (
            final(self).dispatched_log().len() - old(self).dispatched_log().len()) + 1,
            // a getter error precedes all dispatch: nothing moved
            r matches Err(HandleError::GetError(ge)) ==> {
                &&& final(self).dispatched_log() == old(self).dispatched_log()
                &&& final(self).current_position() == old(self).current_position()
                &&& final(self).update_counter() == old(self).update_counter()
                &&& final(self).store() == old(self).store()
                &&& final(self).offered_log() == old(self).offered_log()
                &&& final(self).last_flushed() == old(self).last_flushed()
            },
            // a handler that predictably rejects lets no message complete ...
            (exists|j: int|
                0 <= j < old(self).handler_seq().len() && #[trigger] old(self).handler_seq()[j].outcome_model() == Some(false)) ==> final(self).dispatched_log() == old(self).dispatched_log(),
            // ... and fails any iteration whose predictable fetch is nonempty
            old(self).getter().queue_model() matches Some(q) && vstd::math::min(
                old(self).current_position() as int,
                q.len() as int,
            ) < q.len() && (exists|j: int|
                0 <= j < old(self).handler_seq().len() && #[trigger] old(self).handler_seq()[j].outcome_model() == Some(false)) ==> r is Err,
            // success is owed when the fetch is predictable and every
            // handler predictably accepts ...
            old(self).getter().queue_model() is Some && (forall|j: int|
                0 <= j < old(self).handler_seq().len() ==> #[trigger] old(self).handler_seq()[j].outcome_model() == Some(true)) ==> r is Ok,
            // ... and when the predictable fetch is empty, whatever the
            // handlers would say
            old(self).getter().queue_model() matches Some(q) && q.len() <= old(self).current_position() ==> r is Ok,
            // a substitute getter pins the batch down: the handled messages
            // are a prefix of the queued suffix from the requested position
            // (all of it on success), the queue drains, the telemetry is
            // counted, and any error is a handler's
            old(self).getter().queue_model() matches Some(q) ==> {
                let from = vstd::math::min(
                    old(self).current_position() as int,
                    q.len() as int,
                );
                let suffix = q.skip(from);
                let news = final(self).dispatched_log().len() - old(self).dispatched_log().len();
                &&& news <= suffix.len()
                &&& final(self).dispatched_log() == old(self).dispatched_log() + suffix.take(
                    news as int,
                )
                &&& (r is Ok ==> final(self).dispatched_log() == old(self).dispatched_log()
                    + suffix)
                &&& (r matches Err(e) ==> e is HandlerError)
                &&& final(self).getter().queue_model() == Some(Seq::<u64>::empty())
                &&& (old(self).getter().telemetry_model() matches Some(t) ==> final(self).getter().telemetry_model() == Some(
                    (sat_add(t.0 as nat, 1), sat_add(t.1 as nat, (q.len() - from) as nat)),
                ))
            },
            old(self).getter().queue_model() is None ==> final(self).getter().queue_model()
                is None,
            final(self).store().stored_model() == old(self).store().stored_model(),
            old(self).store().counts_model() is None ==> final(self).store().counts_model()
                is None,
            final(self).update_interval() == old(self).update_interval(),
            final(self).clock() == old(self).clock(),
            final(self).policy() == old(self).policy(),
            final(self).handler_count() == old(self).handler_count(),
            final(self).category_name() == old(self).category_name(),
            final(self).active_ref() == old(self).active_ref(),
            final(self).iterations_ref() == old(self).iterations_ref(),
    {
        self.increment_iterations();

        let position = self.position;
        let messages = match self.get.get(position as i64) {
            Ok(messages) => messages,
            Err(error) => {
                return Err(HandleError::GetError(error));
            },
        };
        let messages_length = messages.len();
        let ghost fetched = positions_of(messages@);
        let ghost base = self.dispatched@;
        let ghost base_offered = self.offered@;
        let ghost getter_after = self.get;

        let mut i: usize = 0;
        while i < messages_length
            invariant
                0 <= i <= messages_length,
                messages_length == messages@.len(),
                fetched == positions_of(messages@),
                strictly_increasing(fetched),
                forall|k: int|
                    0 <= k < fetched.len() ==> position as int <= #[trigger] fetched[k] as int
                        && fetched[k] < MAX_POSITION,
                self.wf(),
                self.dispatched@ == base + fetched.take(i as int),
                self.position == if i == 0 {
                    position
                } else {
                    (fetched[i - 1] + 1) as u64
                },
                self.position_update_counter == counter_after(
                    old(self).position_update_counter,
                    i as nat,
                    old(self).update_interval(),
                ),
                old(self).store().counts_model() matches Some(t) ==> self.store().counts_model()
                    == Some(
                    (
                        t.0,
                        sat_add(
                            t.1 as nat,
                            flushes_during(
                                old(self).position_update_counter,
                                i as nat,
                                old(self).update_interval(),
                            ),
                        ),
                    ),
                ),
                old(self).store().counts_model() is None ==> self.store().counts_model() is None,
                self.store().stored_model() == old(self).store().stored_model(),
                self.get == getter_after,
                self.settings.position_update_interval == old(self).settings.position_update_interval,
                self.run_time == old(self).run_time,
                self.back_off == old(self).back_off,
                self.handlers@.len() == old(self).handlers@.len(),
                forall|j: int|
                    0 <= j < self.handler_seq().len() ==> #[trigger] self.handler_seq()[j].outcome_model() == old(self).handler_seq()[j].outcome_model(),
                i > 0 ==> (forall|j: int|
                    0 <= j < old(self).handler_seq().len() ==> #[trigger] old(self).handler_seq()[j].outcome_model() != Some(false)),
                self.offered@.len() == base_offered.len(),
                base_offered == old(self).offered@,
                forall|j: int|
                    0 <= j < self.offered@.len() ==> #[trigger] self.offered@[j] == base_offered[j]
                        + fetched.take(i as int),
                self.category@ == old(self).category@,
                self.active == old(self).active,
                self.iterations == old(self).iterations,
                base == old(self).dispatched@,
                position == old(self).position,
            decreases messages_length - i,
        {
            let message_data = messages[i];
            proof {
                if i > 0 {
                    assert(fetched[i - 1] < fetched[i as int]);
                }
            }
            let ghost mid_offered = self.offered@;
            let ghost mid_handlers = self.handler_seq();
            let outcome = self.handle_message(message_data);
            proof {
                assert(forall|j: int|
                    0 <= j < self.handler_seq().len() ==> #[trigger] self.handler_seq()[j].outcome_model() == mid_handlers[j].outcome_model());
            }
            if let Err(error) = outcome {
                proof {
                    if old(self).getter().queue_model() is Some {
                        let q = old(self).getter().queue_model()->Some_0;
                        if q.len() <= old(self).current_position() {
                            assert(q.skip(
                                vstd::math::min(
                                    old(self).current_position() as int,
                                    q.len() as int,
                                ),
                            ) =~= Seq::<u64>::empty());
                            assert(fetched.len() == 0);
                            assert(false);
                        }
                    }
                    if forall|j: int|
                        0 <= j < old(self).handler_seq().len() ==> #[trigger] old(
                            self,
                        ).handler_seq()[j].outcome_model() == Some(true) {
                        assert(forall|j: int|
                            0 <= j < mid_handlers.len() ==> #[trigger] mid_handlers[j].outcome_model()
                                == Some(true));
                        assert(false);
                    }
                    if exists|j: int|
                        0 <= j < old(self).handler_seq().len() && #[trigger] old(self).handler_seq()[j].outcome_model() == Some(false) {
                        assert(i == 0);
                        assert(fetched.take(0int) =~= Seq::<u64>::empty());
                        assert(self.dispatched@ =~= base);
                    }
                    assert(self.dispatched@.skip(base.len() as int) =~= fetched.take(i as int));
                    assert(self.dispatched@.take(base.len() as int) =~= base);
                    if i > 0 {
                        assert(self.dispatched@.last() == fetched[i - 1]);
                    } else {
                        assert(self.dispatched@ =~= base);
                    }
                    assert forall|j: int|
                        base.len() <= j < self.dispatched@.len() implies #[trigger] self.dispatched@[j]
                        >= position by {
                        assert(self.dispatched@[j] == fetched[j - base.len()]);
                    }
                    let f = choose|f: int|
                        {
                            &&& 0 <= f < mid_offered.len()
                            &&& #[trigger] self.offered@[f] == mid_offered[f].push(
                                message_data.global_position,
                            )
                            &&& (forall|j: int|
                                0 <= j <= f ==> #[trigger] self.offered@[j] == mid_offered[j].push(
                                    message_data.global_position,
                                ))
                            &&& (forall|j: int|
                                f < j < self.offered@.len() ==> #[trigger] self.offered@[j]
                                    == mid_offered[j])
                        };
                    assert forall|j: int|
                        0 <= j < self.offered@.len() implies #[trigger] self.offered@[j].take(
                        base_offered[j].len() as int + i as int,
                    ) == base_offered[j] + fetched.take(i as int) by {
                        if j <= f {
                            assert(self.offered@[j] == (base_offered[j] + fetched.take(
                                i as int,
                            )).push(message_data.global_position));
                            assert(self.offered@[j].take(base_offered[j].len() as int + i as int)
                                =~= base_offered[j] + fetched.take(i as int));
                        } else {
                            assert(self.offered@[j] == base_offered[j] + fetched.take(i as int));
                            assert(self.offered@[j].take(base_offered[j].len() as int + i as int)
                                =~= base_offered[j] + fetched.take(i as int));
                        }
                    }
                    assert(fetched[i as int] == message_data.global_position);
                    if old(self).handler_seq().len() > 0 {
                        assert(self.offered@[0] == mid_offered[0].push(
                            message_data.global_position,
                        ));
                        assert(self.offered@[0].len() == base_offered[0].len() + i + 1);
                    }
                }
                return Err(error);
            }
            proof {
                assert forall|j: int|
                    0 <= j < old(self).handler_seq().len() implies #[trigger] old(self).handler_seq()[j].outcome_model() != Some(false) by {
                    if old(self).handler_seq()[j].outcome_model() == Some(false) {
                        assert(mid_handlers[j].outcome_model() == Some(false));
                        assert(exists|k: int|
                            0 <= k < mid_handlers.len() && #[trigger] mid_handlers[k].outcome_model()
                                == Some(false));
                        assert(false);
                    }
                }
                assert(fetched.take(i + 1) =~= fetched.take(i as int).push(fetched[i as int]));
                assert(self.dispatched@ =~= base + fetched.take(i + 1));
                assert forall|j: int| 0 <= j < self.offered@.len() implies #[trigger] self.offered@[j]
                    == base_offered[j] + fetched.take(i + 1) by {
                    assert(self.offered@[j] == (base_offered[j] + fetched.take(i as int)).push(
                        fetched[i as int],
                    ));
                    assert((base_offered[j] + fetched.take(i as int)).push(fetched[i as int]) =~=
                        base_offered[j] + fetched.take(i + 1));
                }
            }
            i += 1;
        }
        proof {
            assert(fetched.take(messages_length as int) =~= fetched);
            assert(self.dispatched@ =~= base + fetched);
            assert(self.dispatched@.skip(base.len() as int) =~= fetched);
            assert(self.dispatched@.take(base.len() as int) =~= base);
            if messages_length > 0 {
                assert(self.dispatched@.last() == fetched[messages_length - 1]);
            } else {
                assert(self.dispatched@ =~= base);
            }
            assert forall|j: int|
                base.len() <= j < self.dispatched@.len() implies #[trigger] self.dispatched@[j]
                >= position by {
                assert(self.dispatched@[j] == fetched[j - base.len()]);
            }
            assert forall|j: int|
                0 <= j < self.offered@.len() implies #[trigger] self.offered@[j].take(
                base_offered[j].len() as int + messages_length as int,
            ) == base_offered[j] + fetched by {
                assert(self.offered@[j] == base_offered[j] + fetched);
                assert(self.offered@[j].take(base_offered[j].len() as int + messages_length as int)
                    =~= base_offered[j] + fetched);
            }
        }
        Ok(messages_length as u64)
    }

}

impl<H: Handler> Consumer<
    SubstituteGetter,
    ConstantBackOff,
    SubstituteRunTime,
    SubstitutePositionStore,
    H,
> {
    /// A consumer wired entirely to in-memory substitutes, for tests: empty
    /// getter queue, zeroed position store, no run limit, one-millisecond
    /// constant back-off, default settings, and no handlers yet.
    pub fn new(category: &str) -> (c: Self)
        ensures
            c.wf(),
            c.current_position() == 0,
            c.update_counter() == 0,
            c.dispatched_log().len() == 0,
            c.handler_count() == 0,
            c.update_interval() == crate::settings::POSITION_UPDATE_INTERVAL_DEFAULT,
            c.getter().queue() == Seq::<u64>::empty(),
            c.getter().counts() == (0u64, 0u64),
            c.store().stored() == 0,
            c.store().counts() == (0u64, 0u64),
            c.clock().run_limit_model() is None,
            c.category_name() == category@,
    {
        Consumer {
            run_time: SubstituteRunTime::new(),
            category: category.to_owned(),
            handlers: Vec::new(),
            active: Arc::new(AtomicBool::new(true)),
            iterations: Arc::new(AtomicU64::new(0)),
            get: SubstituteGetter::new(category),
            back_off: ConstantBackOff::new(),
            position: 0,
            position_update_counter: 0,
            position_store: SubstitutePositionStore::new(),
            settings: Settings::new(),
            dispatched: Ghost(Seq::<u64>::empty()),
            offered: Ghost(Seq::<Seq<u64>>::empty()),
            flushed: Ghost(None),
        }
    }
}

impl<H: Handler> Consumer<Category, ConstantBackOff, SystemRunTime, PostgresPositionStore, H> {
    /// A production consumer: a category getter and a position store over
    /// the external message store, the system clock with no run limit, the
    /// default constant back-off, default settings, and no handlers yet.
    /// Fails when the getter's store session cannot be established.
    pub fn build(category: &str) -> (r: Result<Self, CategoryError>)
        ensures
            r matches Ok(c) ==> {
                &&& c.wf()
                &&& c.current_position() == 0
                &&& c.update_counter() == 0
                &&& c.dispatched_log().len() == 0
                &&& c.handler_count() == 0
                &&& c.update_interval() == crate::settings::POSITION_UPDATE_INTERVAL_DEFAULT
                &&& c.clock().run_limit_model() is None
                &&& c.category_name() == category@
            },
    {
        let get = match Category::build(category) {
            Ok(get) => get,
            Err(error) => {
                return Err(error);
            },
        };
        Ok(
            Consumer {
                run_time: SystemRunTime::build(),
                category: category.to_owned(),
                handlers: Vec::new(),
                active: Arc::new(AtomicBool::new(true)),
                iterations: Arc::new(AtomicU64::new(0)),
                get,
                back_off: ConstantBackOff::build(),
                position: 0,
                position_update_counter: 0,
                position_store: PostgresPositionStore::build(category),
                settings: Settings::build(),
                dispatched: Ghost(Seq::<u64>::empty()),
                offered: Ghost(Seq::<Seq<u64>>::empty()),
                flushed: Ghost(None),
            },
        )
    }
}


/// For every consumer holding its running invariant, the dispatched
/// positions ascend strictly and every one lies below the next position the
/// consumer will request: no message is dispatched after any message with a
/// greater position.
pub proof fn lemma_dispatch_order<G: Get, B: BackOff, R: RunTime, P: PositionStore, H: Handler>(
    c: &Consumer<G, B, R, P, H>,
)
    requires
        c.wf(),
    ensures
        strictly_increasing(c.dispatched_log()),
        forall|i: int|
            0 <= i < c.dispatched_log().len() ==> #[trigger] c.dispatched_log()[i]
                < c.current_position(),
{
}

/// With update interval `interval`, a consumer whose flush counter starts
/// fresh issues exactly one position flush per `interval` successfully
/// handled messages: after `k` messages, `k / interval` flushes have
/// happened and `k % interval` messages have accumulated since the last.
pub proof fn lemma_periodic_flush(k: nat, interval: u64)
    requires
        1 <= interval,
    ensures
        flushes_during(0u64, k, interval) == k / (interval as nat),
        counter_after(0u64, k, interval) == k % (interval as nat),
    decreases k,
{
    let n = interval as int;
    if k == 0 {
        vstd::arithmetic::div_mod::lemma_basic_div(0int, n);
        vstd::arithmetic::div_mod::lemma_small_mod(0nat, interval as nat);
    } else {
        lemma_periodic_flush((k - 1) as nat, interval);
        vstd::arithmetic::div_mod::lemma_fundamental_div_mod((k - 1) as int, n);
        vstd::arithmetic::div_mod::lemma_mod_bound((k - 1) as int, n);
        let q = (k - 1) as int / n;
        let r = (k - 1) as int % n;
        let prev = counter_after(0u64, (k - 1) as nat, interval);
        assert(prev == r);
        if prev + 1 >= interval {
            assert(r == n - 1);
            assert(k as int == (q + 1) * n + 0) by (nonlinear_arith)
                requires
                    (k - 1) as int == q * n + r,
                    r == n - 1,
            ;
            vstd::arithmetic::div_mod::lemma_fundamental_div_mod_converse(k as int, n, q + 1, 0);
        } else {
            assert(k as int == q * n + (r + 1));
            vstd::arithmetic::div_mod::lemma_fundamental_div_mod_converse(k as int, n, q, r + 1);
        }
    }
}



/// The join protocol of a consumer's control handle: the worker, and with it
/// the terminal result, can be claimed exactly once. A later claim answers
/// `MissingHandler` instead of panicking, so `stop` and `wait` stay safe in
/// any order and any number of times.
pub struct WorkerSlot<T> {
    worker: Option<T>,
}

impl<T> WorkerSlot<T> {
    /// Whether the worker has already been claimed (and joined).
    pub closed spec fn joined(&self) -> bool {
        self.worker is None
    }

    /// The worker still waiting to be claimed, if any.
    pub closed spec fn worker_model(&self) -> Option<T> {
        self.worker
    }

    /// Hold a freshly started worker until it is claimed.
    pub fn attach(worker: T) -> (s: Self)
        ensures
            !s.joined(),
            s.worker_model() == Some(worker),
    {
        WorkerSlot { worker: Some(worker) }
    }

    /// Claim the worker. The first claim takes it; every later claim — a
    /// second `wait`, or a `wait` after `stop` — answers `MissingHandler`.
    pub fn claim(&mut self) -> (r: Result<T, HandleError>)
        ensures
            final(self).joined(),
            old(self).joined() <==> r matches Err(HandleError::MissingHandler),
            !old(self).joined() ==> (r matches Ok(w) && Some(w) == old(self).worker_model()),
    {
        match self.worker.take() {
            Some(worker) => Ok(worker),
            None => Err(HandleError::MissingHandler),
        }
    }
}

} // verus!
