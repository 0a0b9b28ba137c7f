# tokiactor

A minimal actor library on top of `tokio` and `async_channel`: an actor wraps a
function, and a `Handle` is the channel through which callers hand it inputs and
receive its outputs. Handles can be chained (`then`), joined (`join`), and
combined when their outputs are `Option`s or `Result`s.

## Layout

- `src/` is the verified library (Verus):
  - `lib.rs`: the function actor `Actor`, the channel `Handle` with its depth
    rule (zero means unbounded), the `Inspector` trait, `ChainError`;
  - `actor.rs`: the `Actor` trait and the actors made from functions
    (`ActorFn`, `ActorFutureFn`);
  - `handle.rs`: the handle of the trait-based actors;
  - `registry.rs`: the registry of actor sockets, one per actor type, with the
    rule that asking again with the same depth yields the same socket;
  - `worker.rs`: the state machine of the loop that serves an actor;
  - `compose.rs`: what combined handles answer from the answers of their parts;
  - `channel.rs`: the outside types and the trusted wrappers around the calls
    into `async_channel` and `std::any`.
- `app/` runs the library: worker threads and tokio tasks, awaiting replies,
  the combinators that spawn new handles, and the process-wide registry.
- `tests/` exercises the library on concrete values.
