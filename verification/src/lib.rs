//! Stackful coroutines on top of futures: the verified core.
//!
//! This crate holds the decisions and bookkeeping of the coroutine library: the builder
//! configuration, the cache of coroutine stacks, the instructions passed across a stack switch,
//! the cleanup policy, and the state machines of the iterator and sink helpers.

pub mod allocation;
pub mod contexts;
pub mod coroutine;
pub mod errors;
pub mod io;
pub mod poll;
pub mod stack_cache;
pub mod switch;
pub mod wrappers;

pub use errors::{Dropped, TaskFailed};
pub use coroutine::{CleanupStrategy, Coroutine};
