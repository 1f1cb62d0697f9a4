//! The readiness values exchanged with the executor.
//!
//! These mirror the `Async` and `AsyncSink` values of the futures protocol, so the decisions of
//! this crate can be stated over plain values.

use vstd::prelude::*;

verus! {

/// Whether a value is ready yet.
#[derive(Debug, Clone, Copy, PartialEq, Eq, Structural)]
pub enum Async<T> {
    /// The value is available.
    Ready(T),
    /// The value is not available yet; the current task is woken when it is.
    NotReady,
}

/// The answer of a sink to an offered item.
#[derive(Debug, Clone, Copy, PartialEq, Eq, Structural)]
pub enum AsyncSink<T> {
    /// The item was accepted.
    Ready,
    /// The item did not fit and is handed back.
    NotReady(T),
}

} // verus!
