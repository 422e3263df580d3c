# yasync_runtime

A small async runtime on epoll, with its decisions verified by Verus.

- `src/` is the verified library: the epoll vocabulary (`epoll.rs`), the
  event loop's callback table and the steps around each `epoll_ctl` and
  `epoll_wait` call (`eventloop.rs`), the timer's shared state (`timer.rs`),
  the hand-over slot of a background bind (`bind.rs`), the waker slot and
  step results of the socket futures (`poll.rs`), and the steps of the
  accept and read futures (`listener.rs`, `stream.rs`).
- `app/` is the program around it: the syscalls, sockets, threads, wakers,
  the executor and the `Future` impls, each of which hands what the kernel
  returned to the library and acts on its answer.
- `tests/` runs the library on concrete values.
