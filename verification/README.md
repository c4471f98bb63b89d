# rust_async

A small single-threaded executor for Rust futures, with spawners, wakers,
a thread parker, a delay future, a blocking-job future and non-blocking UDP
sockets.

- `src/` is the verified library: the decisions of each component as a
  state machine over plain values, with Verus contracts and laws.
  - `executor`: the bounded ready queue (10 000 places) shared by the
    executor and its spawners; the run loop's next step; spawner counting.
  - `park`: the wake-up token of a parked thread.
  - `delay`: when a delay starts its timer, and when it is ready.
  - `spawn_blocking`: the slot through which a blocking job hands its value
    to the future awaiting it.
  - `reactor`: which task a readiness event wakes, and when a source is ready.
  - `udp_socket`: what a send or receive does after one non-blocking attempt.
  - `event_token`: the `mio` tokens handed to event sources.
- `app/` is the program around it: threads, locks, condition variables,
  wakers, sockets and the example tasks.
