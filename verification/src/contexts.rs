//! The coroutines active on a thread.
//!
//! A coroutine that starts running, or is resumed after a wait, enters its context (the
//! context to switch back to, its stack and its cleanup strategy) on top; a coroutine that
//! suspends to wait, or finishes, leaves with its context. The running coroutine's context is
//! always on top.

use vstd::prelude::*;

verus! {

/// The contexts after a coroutine entered with `context`.
pub open spec fn after_enter<C>(contexts: Seq<C>, context: C) -> Seq<C> {
    contexts.push(context)
}

/// The context the running coroutine leaves with (`None` when none runs), and the contexts
/// left behind.
pub open spec fn after_leave<C>(contexts: Seq<C>) -> (Option<C>, Seq<C>) {
    if contexts.len() == 0 {
        (None, contexts)
    } else {
        (Some(contexts.last()), contexts.drop_last())
    }
}

/// The contexts of the coroutines active on a thread, the innermost on top.
pub struct ContextStack<C> {
    contexts: Vec<C>,
}

impl<C> View for ContextStack<C> {
    type V = Seq<C>;

    closed spec fn view(&self) -> Seq<C> {
        self.contexts@
    }
}

impl<C> ContextStack<C> {
    /// No coroutine is active.
    pub fn new() -> (r: Self)
        ensures
            r@ == Seq::<C>::empty(),
    {
        ContextStack { contexts: Vec::new() }
    }

    /// A coroutine starts or is resumed: its context goes on top.
    pub fn enter(&mut self, context: C)
        ensures
            final(self)@ == after_enter(old(self)@, context),
    {
        self.contexts.push(context);
    }

    /// The running coroutine suspends or finishes: its context comes off the top. `None` when no
    /// coroutine is running on this thread.
    pub fn leave(&mut self) -> (r: Option<C>)
        ensures
            (r, final(self)@) == after_leave(old(self)@),
    {
        self.contexts.pop()
    }
}

/// Over `enter` and `leave`: a coroutine that enters and then leaves (it ran to its end) leaves
/// with its own context and the outer contexts as they were; one that leaves to wait and
/// enters again when resumed runs on top of exactly the same outer contexts, with its new
/// context; and leaving when no coroutine runs gives `None` and changes nothing.
pub proof fn lemma_contexts_balanced<C>(outer: Seq<C>, entered: C, resumed: C)
    ensures
        after_leave(after_enter(outer, entered)) == (Some(entered), outer),
        after_enter(after_leave(after_enter(outer, entered)).1, resumed) == after_enter(
            outer,
            resumed,
        ),
        after_leave(Seq::<C>::empty()) == (None::<C>, Seq::<C>::empty()),
{
    assert(outer.push(entered).drop_last() =~= outer);
}

} // verus!
