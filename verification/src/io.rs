//! A wrapper to turn asynchronous IO streams into (coroutine-)blocking ones.
//!
//! When used for reading or writing, the wrapped stream suspends only the current coroutine,
//! not the whole thread. This allows asynchronous streams to be used with blocking routines.

use vstd::prelude::*;

verus! {

/// A wrapper to turn async IO streams into sync ones.
///
/// Note that if `T` is an asynchronous stream, `&mut T` is too. Therefore, it is possible both
/// to turn the stream into a sync one permanently (or until the wrapper is unwrapped with
/// [`into_inner`](#method.into_inner)), or just temporarily.
#[derive(Clone, Debug, Eq, Hash, Ord, PartialEq, PartialOrd)]
pub struct BlockingWrapper<T>(T);

impl<T> BlockingWrapper<T> {
    /// The wrapped stream.
    pub closed spec fn stream(self) -> T {
        self.0
    }

    /// Wraps the stream and turns it to synchronous one.
    pub fn new(stream: T) -> (r: Self)
        ensures
            r.stream() == stream,
    {
        BlockingWrapper(stream)
    }

    /// Accesses the inner stream.
    pub fn inner(&self) -> (r: &T)
        ensures
            *r == self.stream(),
    {
        &self.0
    }

    /// Accesses the inner stream mutably.
    pub fn inner_mut(&mut self) -> (r: &mut T)
        ensures
            *r == old(self).stream(),
            final(self).stream() == *final(r),
    {
        &mut self.0
    }

    /// Consumes the wrapper and gives the wrapped stream back.
    pub fn into_inner(self) -> (r: T)
        ensures
            r == self.stream(),
    {
        self.0
    }
}

/// Two wrappers around the same stream are the same wrapper; so wrapping a stream with `from`
/// gives what `new` gives.
pub proof fn lemma_wrapper_determined_by_stream<T>(a: BlockingWrapper<T>, b: BlockingWrapper<T>)
    requires
        a.stream() == b.stream(),
    ensures
        a == b,
{
}

impl<T> From<T> for BlockingWrapper<T> {
    fn from(stream: T) -> (r: Self)
        ensures
            r.stream() == stream,
    {
        Self::new(stream)
    }
}

impl<T> vstd::std_specs::convert::FromSpecImpl<T> for BlockingWrapper<T> {
    open spec fn obeys_from_spec() -> bool {
        true
    }

    closed spec fn from_spec(stream: T) -> Self {
        BlockingWrapper(stream)
    }
}

} // verus!
