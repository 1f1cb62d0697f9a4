//! A cache of coroutine stacks, keyed by their size.
//!
//! Creating a guarded stack is expensive (it maps memory and protects a guard page), so stacks
//! of finished coroutines are kept here and handed out again to coroutines asking for a stack of
//! the same size. The most recently returned stack of a size is handed out first. A stack is
//! filed under its own length, which is the size asked for rounded up to whole memory pages.

use std::collections::HashMap;
use vstd::prelude::*;
use context::stack::{ProtectedFixedSizeStack, Stack};

use crate::allocation::{allocate_stack, fresh_stack_len, AllocationFailure, MeasuredStack};

verus! {

broadcast use vstd::std_specs::hash::group_hash_axioms;

/// A reading of the platform's default stack size. Only the reading below makes one.
pub struct PlatformDefault {
    size: usize,
}

impl PlatformDefault {
    /// The default stack size read.
    pub closed spec fn size(self) -> usize {
        self.size
    }

    /// The default stack size read.
    pub fn value(&self) -> (r: usize)
        ensures
            r == self.size(),
    {
        self.size
    }
}

/// Reads the default stack size of the platform, from `Stack::default_size` of the `context`
/// crate. It is computed from the page size and resource limits of the machine, so nothing is
/// stated of the value; the reading only records that it came from there.
#[verifier::external_body]
pub(crate) fn platform_default_stack_size() -> PlatformDefault {
    PlatformDefault { size: Stack::default_size() }
}

/// A guarded coroutine stack, with the size it was asked for and its length.
///
/// The length is measured from the stack memory once, when the stack is made; the stack itself
/// never changes afterwards.
pub struct CoroutineStack {
    memory: MeasuredStack,
}

impl CoroutineStack {
    /// The size this stack was asked for.
    pub closed spec fn requested(self) -> usize {
        self.memory.requested()
    }

    /// The usable length of this stack.
    pub closed spec fn length(self) -> usize {
        self.memory.length()
    }

    /// A stack is never shorter than the size it was asked for.
    #[verifier::type_invariant]
    closed spec fn long_enough(self) -> bool {
        self.memory.length() >= self.memory.requested()
    }

    /// The measured memory of this stack.
    pub closed spec fn measured(self) -> MeasuredStack {
        self.memory
    }

    /// Allocates a new guarded stack of (at least) `size` bytes.
    ///
    /// The allocator is asked for `size`, and the stack or the failure records that size; a
    /// stack made is at least `size` long. A size of `usize::MAX` is always refused; whether
    /// other sizes succeed depends on the machine.
    pub fn allocate(size: usize) -> (r: Result<CoroutineStack, AllocationFailure>)
        ensures
            r matches Ok(s) ==> s.requested() == size && s.length() >= size,
            r matches Err(f) ==> f.requested() == size,
            size == usize::MAX ==> r is Err,
    {
        match allocate_stack(size) {
            Ok(fresh) => Ok(CoroutineStack { memory: fresh_stack_len(fresh) }),
            Err(f) => Err(f),
        }
    }

    /// The size this stack was asked for.
    pub fn requested_size(&self) -> (r: usize)
        ensures
            r == self.requested(),
    {
        self.memory.requested_size()
    }

    /// The usable length of this stack.
    pub fn len(&self) -> (r: usize)
        ensures
            r == self.length(),
            r >= self.requested(),
    {
        proof {
            use_type_invariant(self);
        }
        self.memory.len()
    }

    /// The stack memory itself, to run a coroutine on.
    pub fn memory(&self) -> &ProtectedFixedSizeStack {
        self.memory.memory()
    }
}

/// The stacks cached for one size, in the order they were returned (the last one is handed out
/// first).
pub open spec fn cached_of(
    pool: Map<usize, Seq<CoroutineStack>>,
    size: usize,
) -> Seq<CoroutineStack> {
    if pool.contains_key(size) {
        pool[size]
    } else {
        Seq::empty()
    }
}

/// Every stack in the pool is filed under its own length.
pub open spec fn pool_wf(pool: Map<usize, Seq<CoroutineStack>>) -> bool {
    forall|k: usize, i: int|
        0 <= i < cached_of(pool, k).len() ==> #[trigger] cached_of(pool, k)[i].length() == k
}

/// The pool after a stack has been filed under `size`.
pub open spec fn pool_put(
    pool: Map<usize, Seq<CoroutineStack>>,
    size: usize,
    stack: CoroutineStack,
) -> Map<usize, Seq<CoroutineStack>> {
    pool.insert(size, cached_of(pool, size).push(stack))
}

/// The pool after a stack has been given back: it is filed under its own length.
pub open spec fn pool_return(
    pool: Map<usize, Seq<CoroutineStack>>,
    stack: CoroutineStack,
) -> Map<usize, Seq<CoroutineStack>> {
    pool_put(pool, stack.length(), stack)
}

/// Taking a cached stack of `size` out of the pool: the stack handed out and the pool left
/// behind, or `None` when no stack of that size is cached.
pub open spec fn pool_take(
    pool: Map<usize, Seq<CoroutineStack>>,
    size: usize,
) -> Option<(CoroutineStack, Map<usize, Seq<CoroutineStack>>)> {
    let cached = cached_of(pool, size);
    if cached.len() > 0 {
        Some((cached.last(), pool.insert(size, cached.drop_last())))
    } else {
        None
    }
}

/// What getting a stack of `size` from a cache `before` may leave behind and hand out: the
/// last cached stack of that size, or, when none is cached, the allocator's answer to a request
/// for `size` (a new stack or its refusal, both recording `size`) with the cache unchanged.
pub open spec fn get_outcome(
    before: Map<usize, Seq<CoroutineStack>>,
    size: usize,
    after: Map<usize, Seq<CoroutineStack>>,
    r: Result<CoroutineStack, AllocationFailure>,
) -> bool {
    match pool_take(before, size) {
        Some((stack, rest)) => r == Ok::<CoroutineStack, AllocationFailure>(stack) && after == rest,
        None => after == before && (r matches Ok(s) ==> s.requested() == size && s.length()
            >= size) && (r matches Err(f) ==> f.requested() == size) && (size == usize::MAX
            ==> r is Err),
    }
}

/// The pool a map of stack vectors stands for.
pub open spec fn pool_of(
    cache: Map<usize, Vec<CoroutineStack>>,
) -> Map<usize, Seq<CoroutineStack>> {
    cache.map_values(|v: Vec<CoroutineStack>| v@)
}

/// The cache of unused coroutine stacks. Every cached stack is filed under its own length.
pub struct StackCache {
    cache: HashMap<usize, Vec<CoroutineStack>>,
}

impl View for StackCache {
    type V = Map<usize, Seq<CoroutineStack>>;

    closed spec fn view(&self) -> Map<usize, Seq<CoroutineStack>> {
        pool_of(self.cache@)
    }
}

impl StackCache {
    /// Every cached stack is filed under its own length.
    #[verifier::type_invariant]
    closed spec fn filed_by_length(self) -> bool {
        pool_wf(self@)
    }

    /// An empty cache.
    pub fn new() -> (r: Self)
        ensures
            r@ == Map::<usize, Seq<CoroutineStack>>::empty(),
    {
        let cache = HashMap::new();
        assert(pool_of(cache@) =~= Map::<usize, Seq<CoroutineStack>>::empty());
        StackCache { cache }
    }

    /// Gets a stack of the given size.
    ///
    /// Hands out the most recently cached stack of that size (which is exactly that long), or
    /// allocates a new one of that size when none is cached (the allocation may fail).
    pub fn get(&mut self, size: usize) -> (r: Result<CoroutineStack, AllocationFailure>)
        ensures
            get_outcome(old(self)@, size, final(self)@, r),
            r matches Ok(s) ==> s.length() >= size,
            pool_wf(old(self)@),
            pool_wf(final(self)@),
    {
        proof {
            use_type_invariant(&*self);
        }
        let ghost pool = self@;
        let mut cache: HashMap<usize, Vec<CoroutineStack>> = HashMap::new();
        assert(pool_of(cache@) =~= Map::<usize, Seq<CoroutineStack>>::empty());
        std::mem::swap(&mut cache, &mut self.cache);
        let r = match cache.remove(&size) {
            Some(mut bucket) => {
                let ghost before = bucket@;
                assert(cached_of(pool, size) == before);
                let popped = bucket.pop();
                match popped {
                    Some(stack) => {
                        cache.insert(size, bucket);
                        assert(pool_of(cache@) =~= pool.insert(size, before.drop_last()));
                        assert(stack == before[before.len() - 1]);
                        Ok(stack)
                    },
                    None => {
                        cache.insert(size, bucket);
                        assert(pool_of(cache@) =~= pool);
                        CoroutineStack::allocate(size)
                    },
                }
            },
            None => {
                assert(pool_of(cache@) =~= pool);
                assert(cached_of(pool, size).len() == 0);
                CoroutineStack::allocate(size)
            },
        };
        proof {
            assert forall|k: usize, i: int|
                0 <= i < cached_of(pool_of(cache@), k).len() implies #[trigger] cached_of(
                pool_of(cache@),
                k,
            )[i].length() == k by {
                if k != size {
                    assert(cached_of(pool_of(cache@), k) == cached_of(pool, k));
                } else {
                    assert(cached_of(pool, k)[i].length() == k);
                }
            }
        }
        self.cache = cache;
        r
    }

    /// Files a stack of that length under its length.
    pub fn put_sized(&mut self, size: usize, stack: CoroutineStack)
        requires
            stack.length() == size,
        ensures
            final(self)@ == pool_put(old(self)@, size, stack),
            pool_wf(final(self)@),
    {
        proof {
            use_type_invariant(&*self);
        }
        let ghost pool = self@;
        let mut cache: HashMap<usize, Vec<CoroutineStack>> = HashMap::new();
        assert(pool_of(cache@) =~= Map::<usize, Seq<CoroutineStack>>::empty());
        std::mem::swap(&mut cache, &mut self.cache);
        let mut bucket = match cache.remove(&size) {
            Some(bucket) => bucket,
            None => Vec::new(),
        };
        assert(bucket@ == cached_of(pool, size));
        bucket.push(stack);
        cache.insert(size, bucket);
        assert(pool_of(cache@) =~= pool_put(pool, size, stack));
        proof {
            assert forall|k: usize, i: int|
                0 <= i < cached_of(pool_of(cache@), k).len() implies #[trigger] cached_of(
                pool_of(cache@),
                k,
            )[i].length() == k by {
                if k != size {
                    assert(cached_of(pool_of(cache@), k) == cached_of(pool, k));
                } else if i < cached_of(pool, k).len() {
                    assert(cached_of(pool, k)[i].length() == k);
                }
            }
        }
        self.cache = cache;
    }

    /// Puts a stack into the cache for future reuse, filed under its own length.
    pub fn put(&mut self, stack: CoroutineStack)
        ensures
            final(self)@ == pool_return(old(self)@, stack),
            pool_wf(final(self)@),
    {
        let size = stack.len();
        self.put_sized(size, stack);
    }
}

/// A stack filed under a size is the next one handed out for that size, and taking it leaves
/// every size with exactly the stacks it had before.
pub proof fn lemma_put_then_get(
    pool: Map<usize, Seq<CoroutineStack>>,
    size: usize,
    stack: CoroutineStack,
)
    ensures
        pool_take(pool_put(pool, size, stack), size) matches Some((s, rest)) && s == stack
            && forall|k: usize| #[trigger] cached_of(rest, k) == cached_of(pool, k),
{
    let put = pool_put(pool, size, stack);
    assert(cached_of(put, size) == cached_of(pool, size).push(stack));
    assert(cached_of(put, size).drop_last() =~= cached_of(pool, size));
}

/// A stack given back to the cache is what the next `get` of its length hands out, without
/// allocating, and afterwards every size has exactly the stacks it had before.
pub proof fn lemma_return_then_get(
    pool: Map<usize, Seq<CoroutineStack>>,
    stack: CoroutineStack,
    after: Map<usize, Seq<CoroutineStack>>,
    r: Result<CoroutineStack, AllocationFailure>,
)
    requires
        get_outcome(pool_return(pool, stack), stack.length(), after, r),
    ensures
        r == Ok::<CoroutineStack, AllocationFailure>(stack),
        forall|k: usize| #[trigger] cached_of(after, k) == cached_of(pool, k),
{
    lemma_put_then_get(pool, stack.length(), stack);
}

/// Filing a stack under one size leaves the stacks of every other size as they were.
pub proof fn lemma_put_keeps_other_sizes(
    pool: Map<usize, Seq<CoroutineStack>>,
    size: usize,
    other: usize,
    stack: CoroutineStack,
)
    requires
        size != other,
    ensures
        cached_of(pool_put(pool, size, stack), other) == cached_of(pool, other),
{
}

/// A stack is only handed out for the size it was cached under.
pub proof fn lemma_take_hands_out_cached(
    pool: Map<usize, Seq<CoroutineStack>>,
    size: usize,
)
    ensures
        pool_take(pool, size) matches Some((s, rest)) ==> cached_of(pool, size).contains(s)
            && cached_of(rest, size).len() + 1 == cached_of(pool, size).len(),
{
    if let Some((s, rest)) = pool_take(pool, size) {
        let cached = cached_of(pool, size);
        assert(cached[cached.len() - 1] == s);
    }
}

/// A stack's length is the length measured from its own memory when it was made, and that
/// memory was asked for with the stack's requested size.
pub proof fn lemma_stack_length_is_measured(stack: CoroutineStack)
    ensures
        stack.length() == stack.measured().length(),
        stack.requested() == stack.measured().requested(),
{
}

/// `get` never hands out a stack shorter than asked for: a cached stack handed out for `size`
/// is exactly `size` long, and a new one is at least `size` long and asked for with `size`.
pub proof fn lemma_get_never_short(
    before: Map<usize, Seq<CoroutineStack>>,
    size: usize,
    after: Map<usize, Seq<CoroutineStack>>,
    r: Result<CoroutineStack, AllocationFailure>,
)
    requires
        pool_wf(before),
        get_outcome(before, size, after, r),
    ensures
        r matches Ok(s) ==> s.length() >= size,
        pool_take(before, size) is Some ==> (r matches Ok(s) && s.length() == size),
        pool_take(before, size) is None ==> (r matches Ok(s) ==> s.requested() == size),
{
    if pool_take(before, size) is Some {
        let cached = cached_of(before, size);
        assert(cached[cached.len() - 1].length() == size);
    }
}

} // verus!
