# pointers

Pointer abstractions for generic containers and an intrusive reference counter.

- `src/lib.rs`: the `Pointer` and `SmartPointer` traits, with their impls for
  `Box`, `Rc`, `Arc` and `&T`.
- `src/irc.rs`: the counting protocol of `Irc` handles: the `IrcItem` and
  `IrcCounter` traits, the counter step of each handle operation, the
  decisions taken on what the counter returned, and the laws of the protocol
  over a model of one item's counter.
- `src/order.rs`: the memory orderings of the protocol (those of std's `Arc`).
- `src/atomic.rs`: the atomic operations on the counters, made through
  `atomic_traits` with the value and ordering the library passes.
- `src/items.rs`: sample items for handles over a `Box` and over an `Arc`.
- `app/lib.rs`: the `Irc` handle itself and the raw side of `Pointer`
  (`into_raw`, `from_raw`, `as_ptr`), which need raw pointers, `unsafe` and a
  destructor; every counter step there goes through `src/irc.rs`.

The laws of `src/irc.rs` hold of a model of one item's counter. The code hands
the atomic the values and orderings that the model and `src/order.rs` state,
and takes its decisions as the model does; that the atomic holds the model's
count is not proved, since what a shared atomic holds cannot be followed.
