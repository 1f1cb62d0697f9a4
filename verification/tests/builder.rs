use corona::coroutine::{CleanupAction, CleanupStrategy, Coroutine};
use corona::stack_cache::{CoroutineStack, StackCache};

fn described(builder: &Coroutine) -> String {
    format!("{:?}", builder)
}

#[test]
fn new_builder_cleans_up_always() {
    let builder = Coroutine::new();
    assert_eq!(builder.current_cleanup_strategy(), CleanupStrategy::CleanupAlways);
    assert!(builder.current_stack_size() > 0);
    let default_builder = Coroutine::default();
    assert_eq!(default_builder.current_cleanup_strategy(), CleanupStrategy::CleanupAlways);
    assert_eq!(default_builder.current_stack_size(), builder.current_stack_size());
}

#[test]
fn setters_change_one_field_each() {
    let mut builder = Coroutine::new();
    builder.stack_size(40960).cleanup_strategy(CleanupStrategy::LeakOnPanic);
    assert_eq!(builder.current_stack_size(), 40960);
    assert_eq!(builder.current_cleanup_strategy(), CleanupStrategy::LeakOnPanic);
    builder.stack_size(81920);
    assert_eq!(builder.current_cleanup_strategy(), CleanupStrategy::LeakOnPanic);
    assert_eq!(
        described(&builder),
        "Coroutine { stack_size: 81920, cleanup_strategy: LeakOnPanic }"
    );
}

#[test]
fn verify_accepts_page_multiple() {
    let mut builder = Coroutine::new();
    builder.stack_size(40960);
    assert!(builder.verify(&mut StackCache::new()).is_ok());
}

/// A stack size that is not a multiple of the page size is rounded up, not refused.
#[test]
fn bug_4_weird_stack_size_assert() {
    let mut builder = Coroutine::new();
    builder.stack_size(10_000);
    builder.verify(&mut StackCache::new()).expect("failed");
}

#[test]
fn verify_refuses_huge_stack() {
    let mut builder = Coroutine::new();
    builder.stack_size(usize::MAX);
    match builder.verify(&mut StackCache::new()) {
        Err(failure) => {
            assert_eq!(failure.requested_size(), usize::MAX);
            match failure.into_error() {
                context::stack::StackError::ExceedsMaximumSize(_) => (),
                _ => panic!("wrong error"),
            }
        },
        Ok(()) => panic!("a huge stack was accepted"),
    }
}

#[test]
fn set_thread_local_stores_verified_builder() {
    let mut slot = Coroutine::new();
    let mut builder = Coroutine::new();
    builder.stack_size(40960).cleanup_strategy(CleanupStrategy::LeakAlways);
    builder.set_thread_local(&mut slot, &mut StackCache::new()).unwrap();
    let read = Coroutine::from_thread_local(&slot);
    assert_eq!(read.current_stack_size(), 40960);
    assert_eq!(read.current_cleanup_strategy(), CleanupStrategy::LeakAlways);
}

#[test]
fn set_thread_local_keeps_slot_on_failure() {
    let mut slot = Coroutine::new();
    slot.stack_size(40960);
    let mut builder = Coroutine::new();
    builder.stack_size(usize::MAX).cleanup_strategy(CleanupStrategy::AbortAlways);
    assert!(builder.set_thread_local(&mut slot, &mut StackCache::new()).is_err());
    let read = Coroutine::from_thread_local(&slot);
    assert_eq!(read.current_stack_size(), 40960);
    assert_eq!(read.current_cleanup_strategy(), CleanupStrategy::CleanupAlways);
}

#[test]
fn install_checked_passes_error_on() {
    let mut slot = Coroutine::new();
    slot.stack_size(4096 * 3);
    let mut builder = Coroutine::new();
    builder.stack_size(4096 * 5);
    let failed = CoroutineStack::allocate(usize::MAX).map(|_| ());
    assert!(builder.install_checked(&mut slot, failed).is_err());
    assert_eq!(slot.current_stack_size(), 4096 * 3);
    assert!(builder.install_checked(&mut slot, Ok(())).is_ok());
    assert_eq!(slot.current_stack_size(), 4096 * 5);
}

#[test]
fn cleanup_strategy_table() {
    let table = [
        (CleanupStrategy::CleanupAlways, CleanupAction::Cleanup, CleanupAction::Cleanup),
        (CleanupStrategy::LeakOnPanic, CleanupAction::Cleanup, CleanupAction::Leak),
        (CleanupStrategy::LeakAlways, CleanupAction::Leak, CleanupAction::Leak),
        (CleanupStrategy::AbortOnPanic, CleanupAction::Cleanup, CleanupAction::Abort),
        (CleanupStrategy::AbortAlways, CleanupAction::Abort, CleanupAction::Abort),
    ];
    for (strategy, calm, panicking) in table.iter() {
        assert_eq!(strategy.on_orphaned(false), *calm);
        assert_eq!(strategy.on_orphaned(true), *panicking);
    }
}

#[test]
fn new_with_stack_size_sets_size() {
    let builder = Coroutine::new_with_stack_size(4096 * 7);
    assert_eq!(builder.current_stack_size(), 4096 * 7);
    assert_eq!(builder.current_cleanup_strategy(), CleanupStrategy::CleanupAlways);
}

/// Verifying takes a cached stack of the configured size and gives it back.
#[test]
fn verify_reuses_cached_stack() {
    let mut cache = StackCache::new();
    let stack = CoroutineStack::allocate(40960).unwrap();
    let len = stack.len();
    let addr = stack.memory().bottom() as usize;
    cache.put(stack);
    let mut builder = Coroutine::new();
    builder.stack_size(len);
    assert!(builder.verify(&mut cache).is_ok());
    let again = cache.get(len).unwrap();
    assert_eq!(again.memory().bottom() as usize, addr);
}

/// Verifying with nothing cached leaves the stack it made in the cache, filed under its length.
#[test]
fn verify_leaves_new_stack_in_cache() {
    let mut cache = StackCache::new();
    let mut builder = Coroutine::new();
    builder.stack_size(10_000);
    assert!(builder.verify(&mut cache).is_ok());
    let probe = CoroutineStack::allocate(10_000).unwrap();
    let cached = cache.get(probe.len()).unwrap();
    assert_eq!(cached.requested_size(), 10_000);
    assert_eq!(cached.len(), probe.len());
}

#[test]
fn failed_verify_leaves_cache_empty() {
    let mut cache = StackCache::new();
    let mut builder = Coroutine::new();
    builder.stack_size(usize::MAX);
    let mut slot = Coroutine::new();
    assert!(builder.set_thread_local(&mut slot, &mut cache).is_err());
    // Nothing was filed: getting a page-sized stack allocates a fresh one of that request.
    let fresh = cache.get(4096).unwrap();
    assert_eq!(fresh.requested_size(), 4096);
}
