# corona

Stackful coroutines for futures-based code: each coroutine runs on its own stack, can wait on
futures (letting other coroutines run meanwhile) and is itself represented by a future of its
result.

* `src/` is the verified core: the coroutine builder and its cleanup strategies, the making and
  the cache of coroutine stacks, the stack of active coroutine contexts, the instructions exchanged when switching stacks, the resolution of a
  coroutine's result, and the state machines behind stream iteration, stream extraction and
  sink sending. The decisions have exact contracts; the allocator's part is stated as far as
  it holds on every machine (a made stack records the size asked for and is at least that
  long; the platform's default stack size and whether a stack can be mapped are left open),
  and plain accessors are pinned by their types. The laws relating the functions are proof
  functions next to them.
* `app/` holds what cannot be verified: switching machine stacks, the thread-local state, the
  current-thread executor, the extension traits on `Future`, `Stream` and `Sink`, and the
  `Read`/`Write` impls of the blocking wrapper.
* `tests/` exercises the core on concrete values.
