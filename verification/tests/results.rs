use corona::coroutine::{conclude, settle, TaskEnd, TaskResult};
use corona::errors::{Dropped, TaskFailed};
use corona::poll::Async;

fn resolve(end: TaskEnd<u32, String>, propagate: bool) -> (Result<Async<u32>, TaskFailed<String>>, Option<String>) {
    let (sent, continued) = conclude(end, propagate);
    (settle(Ok(Async::Ready(sent))), continued)
}

#[test]
fn finished_task_resolves_to_its_value() {
    match resolve(TaskEnd::Returned(42), true) {
        (Ok(Async::Ready(42)), None) => (),
        _ => panic!("wrong resolution"),
    }
}

/// A caught panic is reported through the result, and the next coroutine still works (the
/// task's end is given as a value; running the coroutine is the runtime's part).
#[test]
fn panics_catch() {
    match resolve(TaskEnd::Panicked("Test".to_owned()), false) {
        (Err(TaskFailed::Panicked(msg)), None) => assert_eq!(msg, "Test"),
        _ => panic!("Panic not reported properly"),
    }
    match resolve(TaskEnd::Returned(42), false) {
        (Ok(Async::Ready(v)), None) => assert_eq!(42, v),
        _ => panic!("wrong resolution"),
    }
}

#[test]
fn propagated_panic_continues_in_caller() {
    match resolve(TaskEnd::Panicked("Test".to_owned()), true) {
        (Err(TaskFailed::PanicPropagated), Some(msg)) => assert_eq!(msg, "Test"),
        _ => panic!("Panic not propagated"),
    }
}

#[test]
fn unwound_task_is_lost() {
    match resolve(TaskEnd::Unwound, false) {
        (Err(TaskFailed::Lost), None) => (),
        _ => panic!("not lost"),
    }
    match conclude::<u32, String>(TaskEnd::Unwound, true) {
        (TaskResult::Lost, None) => (),
        _ => panic!("not lost"),
    }
}

#[test]
fn closed_channel_is_lost_and_pending_stays_pending() {
    match settle::<u32, String>(Err(())) {
        Err(TaskFailed::Lost) => (),
        _ => panic!("not lost"),
    }
    match settle::<u32, String>(Ok(Async::NotReady)) {
        Ok(Async::NotReady) => (),
        _ => panic!("not pending"),
    }
}

#[test]
fn error_descriptions() {
    assert_eq!(Dropped.description(), "The future waited on has been dropped before resolving");
    assert_eq!(Dropped.to_string(), "The future waited on has been dropped before resolving");
    assert_eq!(Dropped, Dropped);
    assert_eq!(TaskFailed::<()>::Lost.description(), "The coroutine was lost");
    assert_eq!(TaskFailed::<()>::PanicPropagated.to_string(), "The coroutine panicked");
    assert_eq!(TaskFailed::Panicked(()).description(), "The coroutine panicked");
}
