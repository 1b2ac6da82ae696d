# postage

A channel library — broadcast, mpsc, oneshot, watch and barrier channels, with
stream and sink combinators — whose logic is verified with Verus.

## Layout

- `src/` — the verified library.
  - `context.rs` — the polling context: the id of the polling task's waker,
    and the ids of the tasks a poll woke, which the caller wakes.
  - `sync/` — the building blocks: a counter of live handles, a queue of
    waiting tasks, a one-time transfer cell, a read/release lock, the
    lossless multi-producer multi-consumer circular buffer behind broadcast
    channels, and the state that the two sides of a channel share.
  - `channels/` — the channels.  Each channel's shared state is a value the
    caller owns; the endpoints act on it, and clone and drop are methods that
    take it.  `SenderSink` and `ReceiverStream` borrow an endpoint together
    with that state and are a `Sink` or `Stream` whose step is the
    endpoint's contract, so that combinators over channels are verified too.
    The broadcast sender and the watch receiver have none: each of their
    polls needs a count below the bound of `usize`, which no invariant kept
    across polls can promise.
  - `stream.rs`, `stream/` — the `Stream` trait and its combinators (once,
    repeat, map, filter, find, chain, merge, log), built by the trait's
    methods of those names.
  - `sink.rs`, `sink/` — the `Sink` trait and its combinators (chain, filter,
    log), built by the trait's methods `after`, `filter` and `log`.

The queues of waiting tasks are crossbeam `SegQueue`s of task ids, reached
through trusted wrappers whose contracts state what crossbeam's source does.
The mpsc message queue is a `VecDeque` bounded by the capacity: its contents
are of the caller's message type, and stating them over a crossbeam queue
would take a trusted name generic over that type, which the crate does not
declare.  `merge`, `chain` and `after` take the other stream or sink without
a bound; the result is a `Stream` or `Sink` when both sides carry the same
items.  Logging itself happens in `app/`, which wraps a poll of any stream or
sink.
- `tests/` — scenarios run against the compiled library.
- `app/` — the runtime around it: a registry from waker ids to real wakers,
  futures for `recv` and `send`, thread-safe channel endpoints that keep each
  channel's state behind a mutex, logging, and error types with
  `std::error::Error`.

## What is proved

Every public function states its result and its effect on the state in its
contract.  The circular buffer keeps an invariant relating each slot to the
values written and to the positions of the live readers; from it follow that
no reader falls more than the capacity behind, that no unread value is lost,
that a write waits exactly while a reader has yet to read the value it
would displace, and, over any series of reads, that a reader is handed each
value from its start on exactly once and in order, as is a clone of it.  Stream and sink combinators state each poll as a relation
over the polls of the streams and sinks they wrap.
