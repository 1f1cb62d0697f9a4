//! The instructions carried across a switch between coroutine stacks, and the decisions taken on
//! each side of a switch.
//!
//! The switching itself (resuming a machine context) happens outside of this crate; what is here
//! is what each side does with the instruction it receives.

use vstd::prelude::*;


use crate::coroutine::{CleanupAction, CleanupStrategy};
use crate::errors::Dropped;
use crate::poll::Async;
use crate::stack_cache::{pool_return, CoroutineStack, StackCache};

verus! {

/// An instruction carried across the coroutine boundary.
///
/// This describes what the receiving coroutine should do next (and contains parameters for that).
/// `Task` is the boxed task a new coroutine runs, `Wait` the task that waits on a future in the
/// executor and `Panic` a panic payload.
pub enum Switch<Task, Wait, Panic> {
    /// Start a new task in the coroutine.
    StartTask { stack: CoroutineStack, task: Task },
    /// Wait on a future to finish.
    WaitFuture { task: Wait },
    /// A future panicked, propagate it into the coroutine.
    PropagateFuturePanic { stack: CoroutineStack, panic: Panic },
    /// Continue operation, the future is resolved.
    Resume { stack: CoroutineStack },
    /// Abort the coroutine and clean up the resources.
    Cleanup { stack: CoroutineStack },
    /// Get rid of the sending coroutine, it terminated; the panic, if any, should continue.
    Destroy { stack: CoroutineStack, panic: Option<Panic> },
}

/// How a child coroutine handed control back to the coroutine that ran it.
pub enum ChildExit<Wait, Panic> {
    /// The child terminated; its panic (if it is to continue) is handed over.
    Terminated(Option<Panic>),
    /// The child waits on a future; the waiting task is to be spawned onto the executor.
    Suspended(Wait),
}

/// What a waiting coroutine receives when it is switched back to: the outcome of its wait and
/// its own stack.
pub enum Wakeup<T, Panic> {
    /// The wait ended with the future's result, or `Err(Dropped)` when the executor went away.
    Resolved(Result<T, Dropped>),
    /// Polling the future panicked; the panic continues in the waiting coroutine.
    Panicked(Panic),
}

/// What a poll of a waiting task leads to.
pub enum WaitPoll<Task, Wait, Panic> {
    /// The future is not resolved yet; the task stays in the executor.
    Pending,
    /// The waiting coroutine is to be switched to with `instruction`, and the task's poll ends
    /// with `reply`.
    Wake { instruction: Switch<Task, Wait, Panic>, reply: Result<Async<()>, ()> },
}

/// What the drop of a waiting task, whose coroutine never got resumed, does.
pub enum DropStep<Task, Wait, Panic> {
    /// Leave the coroutine as it is.
    Leak,
    /// Abort the program.
    Abort,
    /// Switch to the coroutine with the given (cleanup) instruction.
    Resume(Switch<Task, Wait, Panic>),
}

impl<Task, Wait, Panic> Switch<Task, Wait, Panic> {
    /// The stack and task a newly born coroutine receives.
    ///
    /// A new coroutine is only ever entered with a `StartTask` instruction.
    pub fn into_start(self) -> (r: (CoroutineStack, Task))
        requires
            self is StartTask,
        ensures
            self matches Switch::StartTask { stack, task } && r == (stack, task),
    {
        match self {
            Switch::StartTask { stack, task } => (stack, task),
            _ => vstd::pervasive::unreached(),
        }
    }

    /// Handles the instruction a child coroutine switched back with.
    ///
    /// A terminated child gives its stack back into the cache, filed under its length, for
    /// reuse; a suspended one hands over its waiting task.
    pub fn finish_child(self, cache: &mut StackCache) -> (r: ChildExit<Wait, Panic>)
        requires
            self is Destroy || self is WaitFuture,
        ensures
            self matches Switch::Destroy { stack, panic } ==> r == ChildExit::<Wait, Panic>::Terminated(
                panic,
            ) && final(cache)@ == pool_return(old(cache)@, stack),
            self matches Switch::WaitFuture { task } ==> r == ChildExit::<Wait, Panic>::Suspended(
                task,
            ) && final(cache)@ == old(cache)@,
    {
        match self {
            Switch::Destroy { stack, panic } => {
                cache.put(stack);
                ChildExit::Terminated(panic)
            },
            Switch::WaitFuture { task } => ChildExit::Suspended(task),
            _ => vstd::pervasive::unreached(),
        }
    }

    /// Handles the instruction a waiting coroutine is woken up with, given the result its future
    /// stored (present whenever the future resolved).
    pub fn wake<T>(self, result: Option<T>) -> (r: (Wakeup<T, Panic>, CoroutineStack))
        requires
            self is Resume || self is Cleanup || self is PropagateFuturePanic,
            self is Resume ==> result is Some,
        ensures
            self matches Switch::Resume { stack } ==> r == (Wakeup::<T, Panic>::Resolved(
                Ok(result->0),
            ), stack),
            self matches Switch::Cleanup { stack } ==> r == (Wakeup::<T, Panic>::Resolved(
                Err(Dropped),
            ), stack),
            self matches Switch::PropagateFuturePanic { stack, panic } ==> r == (Wakeup::<
                T,
                Panic,
            >::Panicked(panic), stack),
    {
        match self {
            Switch::Resume { stack } => match result {
                Some(result) => (Wakeup::Resolved(Ok(result)), stack),
                None => vstd::pervasive::unreached(),
            },
            Switch::Cleanup { stack } => (Wakeup::Resolved(Err(Dropped)), stack),
            Switch::PropagateFuturePanic { stack, panic } => (Wakeup::Panicked(panic), stack),
            _ => vstd::pervasive::unreached(),
        }
    }
}

/// Decides what a poll of the waiting task does, from the outcome of polling the awaited
/// future: `Ok(poll)` when the poll returned, `Err(panic)` when it panicked.
///
/// While the future is not ready nothing changes. Once it resolved (or failed), the waiting
/// coroutine gets its stack back with `Resume`; a panic is carried to it with
/// `PropagateFuturePanic`.
pub fn after_poll<Task, Wait, Panic>(
    polled: Result<Result<Async<()>, ()>, Panic>,
    stack: &mut Option<CoroutineStack>,
) -> (r: WaitPoll<Task, Wait, Panic>)
    requires
        *old(stack) is Some,
    ensures
        polled == Ok::<Result<Async<()>, ()>, Panic>(Ok(Async::NotReady)) ==> r is Pending
            && *final(stack) == *old(stack),
        polled matches Ok(reply) ==> (reply != Ok::<Async<()>, ()>(Async::NotReady) ==> r
            == (WaitPoll::<Task, Wait, Panic>::Wake {
            instruction: Switch::Resume { stack: (*old(stack))->0 },
            reply: reply,
        }) && *final(stack) is None),
        polled matches Err(panic) ==> r == (WaitPoll::<Task, Wait, Panic>::Wake {
            instruction: Switch::PropagateFuturePanic { stack: (*old(stack))->0, panic },
            reply: Err(()),
        }) && *final(stack) is None,
{
    match polled {
        Ok(Ok(Async::NotReady)) => WaitPoll::Pending,
        Ok(reply) => {
            let s = stack.take();
            match s {
                Some(s) => WaitPoll::Wake { instruction: Switch::Resume { stack: s }, reply },
                None => vstd::pervasive::unreached(),
            }
        },
        Err(panic) => {
            let s = stack.take();
            match s {
                Some(s) => WaitPoll::Wake {
                    instruction: Switch::PropagateFuturePanic { stack: s, panic },
                    reply: Err(()),
                },
                None => vstd::pervasive::unreached(),
            }
        },
    }
}

/// Decides what dropping a waiting task does when its coroutine was never resumed (the
/// executor is going away), following the coroutine's cleanup strategy.
pub fn on_drop<Task, Wait, Panic>(
    strategy: CleanupStrategy,
    panicking: bool,
    stack: &mut Option<CoroutineStack>,
) -> (r: DropStep<Task, Wait, Panic>)
    requires
        *old(stack) is Some,
    ensures
        strategy.orphan_action(panicking) == CleanupAction::Leak ==> r is Leak && *final(stack)
            == *old(stack),
        strategy.orphan_action(panicking) == CleanupAction::Abort ==> r is Abort && *final(stack)
            == *old(stack),
        strategy.orphan_action(panicking) == CleanupAction::Cleanup ==> r == DropStep::<
            Task,
            Wait,
            Panic,
        >::Resume(Switch::Cleanup { stack: (*old(stack))->0 }) && *final(stack) is None,
{
    match strategy.on_orphaned(panicking) {
        CleanupAction::Leak => DropStep::Leak,
        CleanupAction::Abort => DropStep::Abort,
        CleanupAction::Cleanup => {
            let s = stack.take();
            match s {
                Some(s) => DropStep::Resume(Switch::Cleanup { stack: s }),
                None => vstd::pervasive::unreached(),
            }
        },
    }
}

} // verus!
