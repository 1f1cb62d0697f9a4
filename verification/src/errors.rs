//! Various errors.

use vstd::prelude::*;


verus! {

/// An error marker when a future is dropped before having a chance to get resolved.
///
/// If you wait on a future and the corresponding executor gets destroyed before the future has a
/// chance to run, this error is returned as there's no chance the future will ever get resolved.
/// It is up to the waiter to clean up the stack, or use methods that panic implicitly.
#[derive(Debug, PartialEq, Eq, Structural, PartialOrd, Ord, Hash)]
pub struct Dropped;

impl Dropped {
    /// The human-readable description of the error.
    pub fn description(&self) -> (r: &'static str)
        ensures
            r@ == "The future waited on has been dropped before resolving"@,
    {
        "The future waited on has been dropped before resolving"
    }

    /// The displayed form of the error: its description.
    pub fn to_string(&self) -> (r: String)
        ensures
            r@ == "The future waited on has been dropped before resolving"@,
    {
        self.description().to_owned()
    }
}

/// The task (coroutine) has failed.
///
/// This is used as an error type and represents an unsuccessful coroutine. `P` is the type of
/// the panic payload carried by a caught panic.
#[derive(Debug)]
pub enum TaskFailed<P> {
    /// There was a panic inside the coroutine.
    ///
    /// The coroutine panicked and it was spawned with `spawn_catch_panic`.
    Panicked(P),
    /// There was a panic in the coroutine.
    ///
    /// However, the panic got re-established inside the coroutine's caller. Observing this result
    /// is rare, since usually the propagated panic destroys the owner of the coroutine as well.
    PanicPropagated,
    /// The coroutine was lost.
    ///
    /// This can happen in case the executor the coroutine was spawned onto was dropped before the
    /// coroutine completed.
    ///
    /// Technically, the coroutine panicked, but this special panic is handled differently.
    Lost,
}

impl<P> TaskFailed<P> {
    /// The human-readable description of the failure.
    pub fn description(&self) -> (r: &'static str)
        ensures
            self is Lost ==> r@ == "The coroutine was lost"@,
            !(self is Lost) ==> r@ == "The coroutine panicked"@,
    {
        match self {
            TaskFailed::Panicked(_) | TaskFailed::PanicPropagated => "The coroutine panicked",
            TaskFailed::Lost => "The coroutine was lost",
        }
    }

    /// The displayed form of the failure: its description.
    pub fn to_string(&self) -> (r: String)
        ensures
            self is Lost ==> r@ == "The coroutine was lost"@,
            !(self is Lost) ==> r@ == "The coroutine panicked"@,
    {
        self.description().to_owned()
    }
}

} // verus!
