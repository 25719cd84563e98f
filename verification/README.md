# Verified synchronisation primitives

Spin locks, channels and reference-counted handles, with their behaviour stated in contracts and
proved by Verus.

## How sharing is modelled

What threads share lies at an address of a `Memory` (or of a `Heap`). A lock, a channel, an end of a
channel or a counted handle is a small value that points there, and an operation on it takes the
memory by `&mut`. A guard borrows its lock, and the ends of a channel borrow it or own it together,
as they would over real memory. An address belongs to one memory: no handle is known to be one of
another. The small values can be shared between threads; whether the memory can is up to what lies
in it.

An atomic update of a flag or a counter is one step. Every operation is a sequence of such steps,
and the steps are public too, so that the steps of several threads can be taken in any order.
Guards, channel ends and counted handles are values that are given up once.

A loop that waits for another thread (to spin, to park, to sleep on a condition variable) is offered
turn by turn. The whole operation requires what the loop waits for, since nobody else can bring it
about while the memory is borrowed.

The `laws` modules take all threads and any order of their steps, and prove what holds throughout:
mutual exclusion, each message received once and in order, no lost wake-up, counters that agree with
the handles, values that are dropped exactly once. The atomic steps are taken one after the other.
Where acquire and release ordering matters, the models carry along which earlier accesses a thread
is sure to see (`spin_lock::laws`, `message_cell::laws`, `basic_one_shot_channel::laws`, and the
`ordering` modules of the two reference-counted types).

Two premises stand beside the order of steps. The threads at a `MinimalSpinLock` unlock only what
they have locked. And a sender that sends more than once, which the channels with borrowed ends
allow, does not send again before the receive of the message before has ended: a receive puts the
flag down before it moves the value out, so that the flag alone does not tell.

## Layout

- `src/memory.rs`: `Memory`, objects at addresses
- `src/spin_lock`: `MinimalSpinLock`, `DataSpinLock`, `SpinLockGuard`
- `src/basic_channel`: `BasicChannel`, an unbounded queue
- `src/message_cell`: room for one message with a flag, which the one-shot channels share
- `src/basic_one_shot_channel`, `src/arc_type_safe_oneshot_channel`,
  `src/type_safe_oneshot_channel_ref.rs`, `src/basic_blocking_channel`: one-shot channels
- `src/basic_arc`, `src/arc_with_weak_pointers`: reference-counted handles
- `app`: the same objects shared behind a mutex, with the waiting done by running threads
- `tests`: the library on concrete values
