//! Making guarded stacks for coroutines.
//!
//! A freshly made stack, and the failure to make one, both record the size that was asked of
//! the allocator; only the allocation below makes them, so what they record is what was asked.

use vstd::prelude::*;
use context::stack::{ProtectedFixedSizeStack, StackError};

verus! {

#[verifier::external_type_specification]
#[verifier::external_body]
pub struct ExProtectedFixedSizeStack(context::stack::ProtectedFixedSizeStack);

#[verifier::external_type_specification]
#[verifier::external_body]
pub struct ExStackError(context::stack::StackError);

/// A stack just made by the allocator, with the size it was asked for.
pub struct FreshStack {
    stack: ProtectedFixedSizeStack,
    requested: usize,
}

/// The allocator's refusal to make a stack, with the size it was asked for.
#[derive(Debug)]
pub struct AllocationFailure {
    error: StackError,
    requested: usize,
}

/// Allocates a new guarded stack with `ProtectedFixedSizeStack::new` of the `context` crate,
/// recording the size asked for with the stack or with the error.
///
/// The outside function rounds the size down to whole memory pages after subtracting one, adds
/// two pages (one of them the guard page) and maps the memory; it refuses the request with
/// `ExceedsMaximumSize` when that sum overflows `usize` or exceeds the platform maximum, and
/// fails when the mapping fails. The sum always overflows for a size of `usize::MAX`, so that
/// size is always refused; whether other sizes succeed depends on the page size and limits of
/// the machine and is not stated.
#[verifier::external_body]
pub(crate) fn allocate_stack(size: usize) -> (r: Result<FreshStack, AllocationFailure>)
    ensures
        r matches Ok(s) ==> s.requested() == size,
        r matches Err(f) ==> f.requested() == size,
        size == usize::MAX ==> r is Err,
{
    match ProtectedFixedSizeStack::new(size) {
        Ok(stack) => Ok(FreshStack { stack, requested: size }),
        Err(error) => Err(AllocationFailure { error, requested: size }),
    }
}

/// Measures the usable length of a fresh stack with `Stack::len` of the `context` crate
/// (reached through the stack's `Deref`), and keeps the length with the stack.
///
/// The allocator maps, for a request of `size` and a page size `page`, the larger of `size`
/// and `page`, less one, rounded down to whole pages, plus two pages, and then protects the
/// lowest page; the usable part between the guard page and the top is that rounded amount plus
/// one page, which is never less than `size`. What it is beyond that depends on the page size
/// and is not stated.
#[verifier::external_body]
pub(crate) fn fresh_stack_len(fresh: FreshStack) -> (r: MeasuredStack)
    ensures
        r.requested() == fresh.requested(),
        r.length() >= r.requested(),
{
    let length = fresh.stack.len();
    MeasuredStack { stack: fresh.stack, requested: fresh.requested, length }
}

/// A stack with the size it was asked for and its usable length, as measured from the stack
/// memory itself. Only the measurement above makes one, so the length is the memory's.
pub struct MeasuredStack {
    stack: ProtectedFixedSizeStack,
    requested: usize,
    length: usize,
}

impl MeasuredStack {
    /// The size this stack was asked for.
    pub closed spec fn requested(self) -> usize {
        self.requested
    }

    /// The usable length of the stack memory.
    pub closed spec fn length(self) -> usize {
        self.length
    }

    /// The size this stack was asked for.
    pub fn requested_size(&self) -> (r: usize)
        ensures
            r == self.requested(),
    {
        self.requested
    }

    /// The usable length of the stack memory.
    pub fn len(&self) -> (r: usize)
        ensures
            r == self.length(),
    {
        self.length
    }

    /// The stack memory itself.
    pub fn memory(&self) -> &ProtectedFixedSizeStack {
        &self.stack
    }
}

impl FreshStack {
    /// The size this stack was asked for.
    pub closed spec fn requested(self) -> usize {
        self.requested
    }

    /// The size this stack was asked for.
    pub fn requested_size(&self) -> (r: usize)
        ensures
            r == self.requested(),
    {
        self.requested
    }

    /// The stack memory itself.
    pub fn memory(&self) -> &ProtectedFixedSizeStack {
        &self.stack
    }
}

impl AllocationFailure {
    /// The size the allocator was asked for.
    pub closed spec fn requested(self) -> usize {
        self.requested
    }

    /// The size the allocator was asked for.
    pub fn requested_size(&self) -> (r: usize)
        ensures
            r == self.requested(),
    {
        self.requested
    }

    /// The allocator's error.
    pub fn error(&self) -> &StackError {
        &self.error
    }

    /// Gives up the record and keeps the allocator's error.
    pub fn into_error(self) -> StackError {
        self.error
    }
}

} // verus!
