//! Handlers for exercising a consumer: one that counts what it is offered,
//! and one that counts and then refuses.

use vstd::prelude::*;

use std::sync::atomic::{AtomicU64, Ordering};
use std::sync::Arc;

use crate::messaging::{HandleError, Handler, MessageData};

verus! {

/// Accepts every message and counts the invocations. Clones share the count,
/// so a test can keep one handle and give the consumer another.
#[derive(Debug, Clone)]
pub struct TrackingHandler {
    count: Arc<AtomicU64>,
}

impl Handler for TrackingHandler {
    open spec fn outcome_model(&self) -> Option<bool> {
        Some(true)
    }

    fn handle(&mut self, message: MessageData) -> (r: Result<(), HandleError>)
        ensures
            r is Ok,
    {
        self.count.fetch_add(1, Ordering::SeqCst);
        Ok(())
    }
}

impl TrackingHandler {
    /// A tracking handler that has seen nothing yet.
    pub fn build() -> (h: TrackingHandler) {
        TrackingHandler { count: Arc::new(AtomicU64::new(0)) }
    }

    /// How many messages this handler (counting all clones) has been offered.
    /// The count lives in a cell shared with the consumer's worker, so no
    /// more can be said of the value than that a call returns it.
    pub fn message_count(&self) -> u64 {
        self.count.load(Ordering::SeqCst)
    }
}

/// The error a [`FailingHandler`] raises on every message.
#[derive(Debug)]
pub enum FailingHandlerError {
    Forced,
}

impl FailingHandlerError {
    /// The failure rendered as text for the worker's terminal error.
    pub fn message(&self) -> (s: String)
        ensures
            s@ == "Forced an error to happen"@,
    {
        "Forced an error to happen".to_owned()
    }
}

/// Counts each message it is offered and then rejects it, so tests can watch
/// a worker abort.
#[derive(Debug, Clone)]
pub struct FailingHandler {
    count: Arc<AtomicU64>,
}

impl Handler for FailingHandler {
    open spec fn outcome_model(&self) -> Option<bool> {
        Some(false)
    }

    fn handle(&mut self, message: MessageData) -> (r: Result<(), HandleError>)
        ensures
            r matches Err(HandleError::HandlerError(m)) && m@ == "Forced an error to happen"@,
    {
        self.count.fetch_add(1, Ordering::SeqCst);
        Err(HandleError::HandlerError(FailingHandlerError::Forced.message()))
    }
}

impl FailingHandler {
    /// A failing handler that has seen nothing yet.
    pub fn build() -> (h: FailingHandler) {
        FailingHandler { count: Arc::new(AtomicU64::new(0)) }
    }

    /// How many messages this handler (counting all clones) has been offered.
    pub fn message_count(&self) -> u64 {
        self.count.load(Ordering::SeqCst)
    }
}

} // verus!
