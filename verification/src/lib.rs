//! A small single-threaded async runtime built on epoll: the verified core.
//!
//! The modules hold the decisions of the runtime as plain state machines:
//! the callback table of the event loop, the completion state of a timer,
//! the hand-over slot of a background bind, and the steps of the accept and
//! read futures.  Everything that touches the kernel (the epoll syscalls,
//! sockets, threads, wakers) is performed by the caller, which hands the
//! outcome back to these functions.
pub mod epoll;
pub mod eventloop;
pub mod poll;
pub mod timer;
pub mod bind;
pub mod stream;
pub mod listener;

pub use epoll::{fd_of, key_of, with_cloexec, CtlOp, CtlRequest, EpollEvent, Event, EventType};
pub use eventloop::{EventLoop, MAX_EVENTS, WAIT_TIMEOUT_MS};
pub use poll::{Interest, IoOutcome, Poll, Step, WakerSlot};
pub use timer::{TimerFuture, TimerState};
pub use bind::{BindState, TcpListenerBind};
pub use stream::{fill_read_buffer, finish_read, read_chunk, read_step, READ_CHUNK};
pub use listener::{accept_step, bind_outcome};
