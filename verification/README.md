# slim_futures

Slim combinators for asynchronous iterators and futures, written as
poll-level state machines and verified with Verus.

Each combinator (`Filter`, `Zip`, `Flatten`, `FoldAsync`, `ReduceAsync`, ...)
owns its own state and the user's functions. A driver owns the underlying
async iterator, the futures and the task context; within one poll it asks the
combinator what to do next (`resume`), polls what it is told to poll, and
reports the answer (`on_iter`, `on_held`, ...), until the combinator finishes
the poll with an answer. Every such method states exactly what it answers and
how its state changes.

Layout:

- `src/poll.rs`: the answer of a poll, the driver's steps, size-hint arithmetic.
- `src/option_entry.rs`, `src/three_states.rs`: typestate handles on an
  `Option` slot and on a three-state holder.
- `src/async_iter/`: the combinators over async iterators; `getters.rs`
  holds the getters (`copy_value`, `clone_value`, `take_value`) through
  which `Fold`, `FoldAsync` and `TryFoldAsync` read their accumulator.
- `src/async_slim_map.rs`, `src/and_then.rs`, `src/assert_future.rs`: future combinators.
- `src/runs.rs`: what the synchronous combinators answer when driven to the
  end, with any number of `Pending` answers from the underlying iterator
  (`Filter`, `FilterMap`, `Find`, `FindMap`, `TakeWhile`, `SkipWhile`,
  `Fold`, `TryFold`, `TryForEach`, `Reduce`, `All`, `Any`, `Fuse`), stated
  against `Seq`, and the consistency of size hints.
- `src/poll_runs.rs`, `src/mapped_runs.rs`: what the asynchronous
  combinators (`Zip`, `Flatten`, `FlatMap`, `FlatMapAsync`, `TryFlatten`,
  `FilterAsync`, `FindAsync`, `FoldAsync`, `ReduceAsync`, `TryFoldAsync`,
  `SkipWhileAsync`, `AndThenAsync`, `OrElseAsync`, `MapAsync`,
  `FilterMapAsync`, `MapWhileAsync`, `ScanAsync`, `TakeWhileAsync`,
  `AllAsync`, `AnyAsync`, `ForEachAsync`, `TryForEachAsync`,
  `FindMapAsync`, `MapOkAsync`, `MapErrAsync`) answer when driven to the
  end, with any number of `Pending` answers from the underlying iterators
  and the futures between items; `FindAsync` and `TryFoldAsync` are also
  shown not to depend on what the iterator answers after the deciding item;
  `AsyncSlimMap` answers what its second future resolves to, however many
  times either future answers `Pending`.
- `src/calls.rs`: which arguments `FilterAsync`, `FindAsync`,
  `SkipWhileAsync`, `ReduceAsync`, `FoldAsync`, `TryFoldAsync` and
  `AndThenAsync` hand to the user's function when driven to the end: once
  per item owed, in order, and none after the deciding item.
- `app/lib.rs`: `Stream` and `Future` adapters (over `futures-core`) that
  drive the combinators, and the `AsyncIteratorExt` extension trait.
- `tests/`: drivers over in-memory iterators and futures.
