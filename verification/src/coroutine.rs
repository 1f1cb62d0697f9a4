//! The [`Coroutine`] builder and the bookkeeping around the life of a coroutine.

use vstd::prelude::*;

use crate::allocation::AllocationFailure;
use crate::errors::TaskFailed;
use crate::poll::Async;
use crate::stack_cache::{
    cached_of, platform_default_stack_size, pool_return, PlatformDefault, pool_take, pool_wf, CoroutineStack,
    StackCache,
};

verus! {

/// Controls how a cleanup happens if the driving executor is dropped while a coroutine lives.
///
/// If an executor is dropped and there is a coroutine that hasn't finished yet, there's no chance
/// for it to make further progress and it becomes orphaned. The question is how to go about
/// cleaning it up, as there's a stack allocated somewhere, full of data that may need a
/// destructor run.
///
/// Some primitives for waiting for a future resolution in the coroutine return an error in such
/// case, but most of them panic ‒ panicking in the stack does exactly what is needed.
///
/// However, there are problems when the executor is dropped due to a panic itself ‒ then this
/// would double panic and abort the whole program.
///
/// This describes a strategy taken for the cleaning up of a coroutine (configured with
/// [`Coroutine::cleanup_strategy`]).
#[derive(Copy, Clone, Debug, Eq, Hash, Ord, PartialEq, PartialOrd, Structural)]
pub enum CleanupStrategy {
    /// Always perform cleanup.
    ///
    /// No matter the situation, perform a cleanup ‒ return the error or panic. This is the
    /// default.
    CleanupAlways,
    /// Cleanup the coroutine unless it is already panicking.
    ///
    /// This opts out to *not* clean up the coroutine and leak the data on its stack in case a
    /// panic is already happening.
    LeakOnPanic,
    /// Do not perform any cleanup.
    LeakAlways,
    /// Perform a cleanup in normal situation, abort if already panicking.
    AbortOnPanic,
    /// Abort on any attempt to drop a living coroutine.
    AbortAlways,
}

/// What happens to an orphaned coroutine whose executor is going away.
#[derive(Copy, Clone, Debug, Eq, PartialEq, Structural)]
pub enum CleanupAction {
    /// Resume the coroutine with the cleanup instruction, unwinding its stack.
    Cleanup,
    /// Leave the coroutine's stack as it is, leaking what lives on it.
    Leak,
    /// Abort the whole program.
    Abort,
}

impl CleanupStrategy {
    /// The action taken for an orphaned coroutine under this strategy.
    pub open spec fn orphan_action(self, panicking: bool) -> CleanupAction {
        match self {
            CleanupStrategy::CleanupAlways => CleanupAction::Cleanup,
            CleanupStrategy::LeakOnPanic => if panicking {
                CleanupAction::Leak
            } else {
                CleanupAction::Cleanup
            },
            CleanupStrategy::LeakAlways => CleanupAction::Leak,
            CleanupStrategy::AbortOnPanic => if panicking {
                CleanupAction::Abort
            } else {
                CleanupAction::Cleanup
            },
            CleanupStrategy::AbortAlways => CleanupAction::Abort,
        }
    }

    /// The action taken for an orphaned coroutine, given whether the thread is already
    /// panicking.
    pub fn on_orphaned(self, panicking: bool) -> (r: CleanupAction)
        ensures
            r == self.orphan_action(panicking),
            r == CleanupAction::Cleanup <==> (self == CleanupStrategy::CleanupAlways || (!panicking
                && (self == CleanupStrategy::LeakOnPanic || self == CleanupStrategy::AbortOnPanic))),
            r == CleanupAction::Leak <==> (self == CleanupStrategy::LeakAlways || (panicking && self
                == CleanupStrategy::LeakOnPanic)),
            r == CleanupAction::Abort <==> (self == CleanupStrategy::AbortAlways || (panicking
                && self == CleanupStrategy::AbortOnPanic)),
    {
        match self {
            CleanupStrategy::CleanupAlways => CleanupAction::Cleanup,
            CleanupStrategy::LeakOnPanic => if panicking {
                CleanupAction::Leak
            } else {
                CleanupAction::Cleanup
            },
            CleanupStrategy::LeakAlways => CleanupAction::Leak,
            CleanupStrategy::AbortOnPanic => if panicking {
                CleanupAction::Abort
            } else {
                CleanupAction::Cleanup
            },
            CleanupStrategy::AbortAlways => CleanupAction::Abort,
        }
    }
}

/// A builder of coroutines.
///
/// This struct is the main entry point and a way to start coroutines of various kinds. It allows
/// both starting them with default parameters and configuring them with the builder pattern.
#[derive(Clone, Debug)]
pub struct Coroutine {
    stack_size: usize,
    cleanup_strategy: CleanupStrategy,
}

impl Coroutine {
    /// The stack size the builder gives to new coroutines.
    pub closed spec fn configured_stack_size(self) -> usize {
        self.stack_size
    }

    /// The cleanup strategy the builder gives to new coroutines.
    pub closed spec fn configured_cleanup(self) -> CleanupStrategy {
        self.cleanup_strategy
    }

    /// Starts building a coroutine with the given default stack size and the `CleanupAlways`
    /// strategy.
    pub fn new_with_stack_size(stack_size: usize) -> (r: Self)
        ensures
            r.configured_stack_size() == stack_size,
            r.configured_cleanup() == CleanupStrategy::CleanupAlways,
    {
        Coroutine { stack_size, cleanup_strategy: CleanupStrategy::CleanupAlways }
    }

    /// Starts building a coroutine, with the platform's default stack size and the
    /// `CleanupAlways` strategy.
    ///
    /// The platform's default stack size depends on the page size and limits of the machine;
    /// it is handed to [`new_with_stack_size`](#method.new_with_stack_size).
    pub fn new() -> (r: Self)
        ensures
            r.configured_cleanup() == CleanupStrategy::CleanupAlways,
            exists|d: PlatformDefault| #[trigger] default_builder(d) == r,
    {
        let platform = platform_default_stack_size();
        let r = Coroutine::new_with_stack_size(platform.value());
        assert(default_builder(platform) == r);
        r
    }

    /// The stack size new coroutines get from this builder.
    pub fn current_stack_size(&self) -> (r: usize)
        ensures
            r == self.configured_stack_size(),
    {
        self.stack_size
    }

    /// The cleanup strategy new coroutines get from this builder.
    pub fn current_cleanup_strategy(&self) -> (r: CleanupStrategy)
        ensures
            r == self.configured_cleanup(),
    {
        self.cleanup_strategy
    }

    /// Configures the stack size used for coroutines.
    ///
    /// Coroutines spawned from this builder will get stack of (at least) this size. If an invalid
    /// size is set, attempts to spawn coroutines will fail with an error.
    pub fn stack_size(&mut self, size: usize) -> (r: &mut Self)
        ensures
            r.configured_stack_size() == size,
            r.configured_cleanup() == old(self).configured_cleanup(),
            *final(self) == *final(r),
    {
        self.stack_size = size;
        self
    }

    /// Configures how the coroutines should be cleaned up if the executor is dropped before the
    /// coroutine resolves.
    pub fn cleanup_strategy(&mut self, strategy: CleanupStrategy) -> (r: &mut Self)
        ensures
            r.configured_cleanup() == strategy,
            r.configured_stack_size() == old(self).configured_stack_size(),
            *final(self) == *final(r),
    {
        self.cleanup_strategy = strategy;
        self
    }

    /// Checks if the current configuration is able to spawn coroutines.
    ///
    /// The only way spawning can fail is getting the coroutine's stack, so this gets a stack of
    /// the configured size from the cache (or makes a new one) and gives it back, as a spawned
    /// coroutine that finishes at once would.
    pub fn verify(&self, cache: &mut StackCache) -> (r: Result<(), AllocationFailure>)
        ensures
            verify_outcome(old(cache)@, self.configured_stack_size(), final(cache)@, r),
            pool_wf(old(cache)@),
            pool_wf(final(cache)@),
    {
        let ghost before = cache@;
        match cache.get(self.stack_size) {
            Ok(stack) => {
                let ghost taken = stack;
                cache.put(stack);
                proof {
                    if pool_take(before, self.stack_size) is None {
                        assert(taken.requested() == self.stack_size && taken.length()
                            >= self.stack_size && cache@ == pool_return(
                            before,
                            taken,
                        ));
                    }
                }
                Ok(())
            },
            Err(e) => Err(e),
        }
    }

    /// Stores this builder into the `slot` once it has passed the verification `checked`.
    ///
    /// On a failed verification the error is passed on and the slot keeps its value.
    pub fn install_checked(&self, slot: &mut Coroutine, checked: Result<(), AllocationFailure>) -> (r:
        Result<(), AllocationFailure>)
        ensures
            checked is Ok ==> r is Ok && *final(slot) == *self,
            checked is Err ==> r == checked && *final(slot) == *old(slot),
    {
        match checked {
            Ok(()) => {
                *slot = Coroutine { stack_size: self.stack_size, cleanup_strategy: self.cleanup_strategy };
                Ok(())
            },
            Err(e) => Err(e),
        }
    }

    /// Puts the builder into the thread's builder slot (used by the stand-alone `spawn`).
    ///
    /// This first verifies (see [`verify`](#method.verify)) the configuration in the builder is
    /// usable and then stores it. If the verification fails, the previous value is preserved.
    pub fn set_thread_local(&self, slot: &mut Coroutine, cache: &mut StackCache) -> (r: Result<(), AllocationFailure>)
        ensures
            r is Ok ==> *final(slot) == *self,
            r is Err ==> *final(slot) == *old(slot),
            verify_outcome(old(cache)@, self.configured_stack_size(), final(cache)@, r),
            pool_wf(old(cache)@),
            pool_wf(final(cache)@),
    {
        let checked = self.verify(cache);
        self.install_checked(slot, checked)
    }

    /// Gets a copy of the builder in the thread's builder slot.
    pub fn from_thread_local(slot: &Coroutine) -> (r: Self)
        ensures
            r == *slot,
    {
        Coroutine { stack_size: slot.stack_size, cleanup_strategy: slot.cleanup_strategy }
    }
}

/// What verifying a configuration with stack size `size` does to a stack cache `before`: a
/// cached stack of that size is taken and given back, and the verification succeeds; with none
/// cached, a new stack asked for with `size` is made and given back, or the allocator's refusal
/// of a request for `size` (always for `usize::MAX`) is reported and the cache stays as it was.
pub open spec fn verify_outcome(
    before: Map<usize, Seq<CoroutineStack>>,
    size: usize,
    after: Map<usize, Seq<CoroutineStack>>,
    r: Result<(), AllocationFailure>,
) -> bool {
    match pool_take(before, size) {
        Some((stack, rest)) => r is Ok && after == pool_return(rest, stack),
        None => {
            &&& size == usize::MAX ==> r is Err
            &&& r is Err ==> after == before
            &&& r matches Err(f) ==> f.requested() == size
            &&& r is Ok ==> exists|s: CoroutineStack|
                #![trigger pool_return(before, s)]
                s.requested() == size && s.length() >= size && after == pool_return(before, s)
        },
    }
}

/// Verifying a configuration whose size has a cached stack succeeds and leaves the cache as it
/// was, so verifying it again succeeds again, and so on.
pub proof fn lemma_cached_configuration_verifies_again(
    before: Map<usize, Seq<CoroutineStack>>,
    size: usize,
    after: Map<usize, Seq<CoroutineStack>>,
    r: Result<(), AllocationFailure>,
)
    requires
        pool_wf(before),
        pool_take(before, size) is Some,
        verify_outcome(before, size, after, r),
    ensures
        r is Ok,
        after == before,
        pool_take(after, size) is Some,
{
    let cached = cached_of(before, size);
    let stack = cached.last();
    assert(stack.length() == size);
    assert(cached.drop_last().push(stack) =~= cached);
    assert(after =~= before);
}

/// A successful verification that had to make a stack leaves exactly one more stack in the
/// cache: asked for with the configured size, at least that long, filed under its length. When
/// that length is the configured size, every later verification of it succeeds without
/// allocating.
pub proof fn lemma_made_stack_stays_cached(
    before: Map<usize, Seq<CoroutineStack>>,
    size: usize,
    after: Map<usize, Seq<CoroutineStack>>,
)
    requires
        pool_wf(before),
        pool_take(before, size) is None,
        verify_outcome(before, size, after, Ok(())),
    ensures
        exists|s: CoroutineStack|
            #![trigger pool_return(before, s)]
            s.requested() == size && s.length() >= size && after == pool_return(before, s),
        forall|s: CoroutineStack|
            #![trigger pool_return(before, s)]
            after == pool_return(before, s) && s.length() == size ==> (pool_take(after, size)
                matches Some((t, _)) && t == s),
{
    assert forall|s: CoroutineStack|
        #![trigger pool_return(before, s)]
        after == pool_return(before, s) && s.length() == size implies (pool_take(after, size)
            matches Some((t, _)) && t == s) by {
        crate::stack_cache::lemma_put_then_get(before, size, s);
    }
}

/// The builder with the platform's default configuration, for a reading `platform` of the
/// platform's default stack size.
pub closed spec fn default_builder(platform: PlatformDefault) -> Coroutine {
    Coroutine { stack_size: platform.size(), cleanup_strategy: CleanupStrategy::CleanupAlways }
}

/// The default builder gives new coroutines the platform's default stack size (as read from
/// the platform) and the `CleanupAlways` strategy; readings of equal sizes give equal builders,
/// and a builder made from a reading differs from one made from a different size.
pub proof fn lemma_default_builder(platform: PlatformDefault, other: PlatformDefault)
    ensures
        default_builder(platform).configured_stack_size() == platform.size(),
        default_builder(platform).configured_cleanup() == CleanupStrategy::CleanupAlways,
        platform.size() == other.size() <==> default_builder(platform) == default_builder(other),
{
}

impl Default for Coroutine {
    fn default() -> (r: Self)
        ensures
            r.configured_cleanup() == CleanupStrategy::CleanupAlways,
            exists|d: PlatformDefault| #[trigger] default_builder(d) == r,
    {
        Self::new()
    }
}

/// How the task of a coroutine came to an end.
pub enum TaskEnd<R, P> {
    /// The task returned a value.
    Returned(R),
    /// The task panicked with the given payload.
    Panicked(P),
    /// The task was unwound by the cleanup of an orphaned coroutine.
    Unwound,
}

/// The result of a coroutine, as sent to the future representing its completion.
pub enum TaskResult<R, P> {
    /// The task panicked and the panic was caught.
    Panicked(P),
    /// The task panicked and the panic continues in the coroutine's caller.
    PanicPropagated,
    /// The coroutine was cleaned up before it finished.
    Lost,
    /// The task finished with a result.
    Finished(R),
}

/// The result of a task ending in `end`, and the panic to continue in the caller (only when
/// the panic is propagated).
pub open spec fn conclude_spec<R, P>(end: TaskEnd<R, P>, propagate_panic: bool) -> (
    TaskResult<R, P>,
    Option<P>,
) {
    match end {
        TaskEnd::Returned(r) => (TaskResult::Finished(r), None),
        TaskEnd::Unwound => (TaskResult::Lost, None),
        TaskEnd::Panicked(p) => if propagate_panic {
            (TaskResult::PanicPropagated, Some(p))
        } else {
            (TaskResult::Panicked(p), None)
        },
    }
}

/// Turns the end of a coroutine's task into the result reported to its future, and the panic
/// that continues in the coroutine's caller (a panic is propagated only when asked for).
pub fn conclude<R, P>(end: TaskEnd<R, P>, propagate_panic: bool) -> (r: (TaskResult<R, P>, Option<P>))
    ensures
        r == conclude_spec(end, propagate_panic),
{
    match end {
        TaskEnd::Returned(r) => (TaskResult::Finished(r), None),
        TaskEnd::Unwound => (TaskResult::Lost, None),
        TaskEnd::Panicked(p) => if propagate_panic {
            (TaskResult::PanicPropagated, Some(p))
        } else {
            (TaskResult::Panicked(p), None)
        },
    }
}

/// What the future of a coroutine resolves to, given what its result channel delivered (an
/// `Err(())` is a channel whose sender went away without sending).
pub open spec fn settle_spec<R, P>(received: Result<Async<TaskResult<R, P>>, ()>) -> Result<
    Async<R>,
    TaskFailed<P>,
> {
    match received {
        Ok(Async::NotReady) => Ok(Async::NotReady),
        Ok(Async::Ready(TaskResult::Finished(r))) => Ok(Async::Ready(r)),
        Ok(Async::Ready(TaskResult::Panicked(p))) => Err(TaskFailed::Panicked(p)),
        Ok(Async::Ready(TaskResult::PanicPropagated)) => Err(TaskFailed::PanicPropagated),
        Ok(Async::Ready(TaskResult::Lost)) => Err(TaskFailed::Lost),
        Err(()) => Err(TaskFailed::Lost),
    }
}

/// One poll of the future representing a coroutine's completion, from one poll of its result
/// channel.
pub fn settle<R, P>(received: Result<Async<TaskResult<R, P>>, ()>) -> (r: Result<
    Async<R>,
    TaskFailed<P>,
>)
    ensures
        r == settle_spec(received),
{
    match received {
        Ok(Async::NotReady) => Ok(Async::NotReady),
        Ok(Async::Ready(TaskResult::Finished(r))) => Ok(Async::Ready(r)),
        Ok(Async::Ready(TaskResult::Panicked(p))) => Err(TaskFailed::Panicked(p)),
        Ok(Async::Ready(TaskResult::PanicPropagated)) => Err(TaskFailed::PanicPropagated),
        Ok(Async::Ready(TaskResult::Lost)) => Err(TaskFailed::Lost),
        Err(()) => Err(TaskFailed::Lost),
    }
}

/// The future of a coroutine resolves to what its task returned; a caught panic comes out as
/// `Panicked` with its payload; a propagated panic comes out as `PanicPropagated` and continues
/// in the caller; a coroutine cleaned up before finishing, or whose result never arrives, is
/// `Lost`.
pub proof fn lemma_coroutine_result<R, P>(end: TaskEnd<R, P>, propagate_panic: bool)
    ensures
        ({
            let (sent, continued) = conclude_spec(end, propagate_panic);
            let resolved = settle_spec(Ok::<Async<TaskResult<R, P>>, ()>(Async::Ready(sent)));
            &&& end matches TaskEnd::Returned(r) ==> resolved == Ok::<Async<R>, TaskFailed<P>>(
                Async::Ready(r),
            ) && continued is None
            &&& end matches TaskEnd::Panicked(p) ==> if propagate_panic {
                resolved == Err::<Async<R>, TaskFailed<P>>(TaskFailed::PanicPropagated)
                    && continued == Some(p)
            } else {
                resolved == Err::<Async<R>, TaskFailed<P>>(TaskFailed::Panicked(p))
                    && continued is None
            }
            &&& end is Unwound ==> resolved == Err::<Async<R>, TaskFailed<P>>(TaskFailed::Lost)
                && continued is None
        }),
        settle_spec(Err::<Async<TaskResult<R, P>>, ()>(())) == Err::<Async<R>, TaskFailed<P>>(
            TaskFailed::Lost,
        ),
{
}

} // verus!
