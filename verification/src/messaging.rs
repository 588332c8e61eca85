//! Messages as the consumer core sees them, the handler interface, and the
//! errors a running worker can end with.

pub mod get;
pub mod postgres;

use vstd::prelude::*;

use crate::messaging::get::GetError;

verus! {

/// The minimum surface the core requires of a message: the store-assigned,
/// monotonically increasing global position. The application payload is
/// opaque to the core and is not carried here.
#[derive(Debug, Clone, Copy, PartialEq, Eq, Structural)]
pub struct MessageData {
    pub global_position: u64,
}

/// A terminal error of a consumer worker.
#[derive(Debug)]
pub enum HandleError {
    /// A handler rejected a message; carries the handler's description of the
    /// failure.
    HandlerError(String),
    /// The getter could not obtain messages.
    GetError(GetError),
    /// `wait` or `stop` found the worker already joined.
    MissingHandler,
}

/// Receives one message at a time in the consumer's worker context; an error
/// aborts the current iteration and ends the worker.
///
/// `outcome_model` is what the handler will answer where that is
/// predictable from its state alone: `Some(true)` for a handler that
/// accepts every message, `Some(false)` for one that rejects every message.
/// Implementations outside the library keep the default `None` and promise
/// nothing of their outcomes.
pub trait Handler: Sized {
    open spec fn outcome_model(&self) -> Option<bool> {
        None
    }

    /// A handler that fails reports its own failure: the error is of the
    /// `HandlerError` kind.
    fn handle(&mut self, message: MessageData) -> (r: Result<(), HandleError>)
        ensures
            old(self).outcome_model() matches Some(accepts) ==> (r is Ok <==> accepts),
            final(self).outcome_model() == old(self).outcome_model(),
            r matches Err(e) ==> e is HandlerError,
    ;
}

} // verus!
