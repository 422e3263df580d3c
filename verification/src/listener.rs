//! The steps of binding and accepting on a TCP listener.
use crate::epoll::EventType;
use crate::poll::{readable, Interest, IoOutcome, Step};
use crate::epoll::event_key;
use crate::eventloop::{after_register, dispatch, register_request_spec};
use vstd::prelude::*;
use vstd::string::StringExecFns;

verus! {

/// The message of a failed accept.
pub open spec fn accept_error(e: Seq<char>) -> Seq<char> {
    "error tcp listener accept: "@ + e
}

/// The message of a failed bind.
pub open spec fn bind_error(e: Seq<char>) -> Seq<char> {
    "error: tcp listener bind fail,"@ + e
}

/// What one accept step on the listener `fd` yields for `outcome`: a
/// connection is ready; a would-block waits until the listener is readable;
/// another error is reported.
pub open spec fn accept_step_holds<S>(fd: i32, outcome: IoOutcome<S>, p: Step<Result<S, String>>) -> bool {
    match outcome {
        IoOutcome::Done(s) => p == Step::Ready(Ok::<S, String>(s)),
        IoOutcome::WouldBlock => p == Step::<Result<S, String>>::Wait(readable(fd)),
        IoOutcome::Failed(e) => p matches Step::Ready(Err(m)) && m@ == accept_error(e@),
    }
}

/// Finishes one accept attempt on the listener `fd` given what the
/// non-blocking accept returned.
pub fn accept_step<S>(fd: i32, outcome: IoOutcome<S>) -> (p: Step<Result<S, String>>)
    ensures
        accept_step_holds(fd, outcome, p),
{
    match outcome {
        IoOutcome::Done(s) => Step::Ready(Ok(s)),
        IoOutcome::WouldBlock => Step::Wait(Interest { fd, event_type: EventType::Readable }),
        IoOutcome::Failed(e) => Step::Ready(Err(String::from_str("error tcp listener accept: ").concat(e.as_str()))),
    }
}

/// The result that the binding thread delivers, given what the bind
/// returned: the listener, or the bind error's message.
pub fn bind_outcome<L>(outcome: Result<L, String>) -> (r: Result<L, String>)
    ensures
        match outcome {
            Ok(l) => r == Ok::<L, String>(l),
            Err(e) => r matches Err(m) && m@ == bind_error(e@),
        },
{
    match outcome {
        Ok(l) => Ok(l),
        Err(e) => Err(String::from_str("error: tcp listener bind fail,").concat(e.as_str())),
    }
}

/// A pending accept completes once the event loop wakes it.  An accept
/// that would block waits for the listener to become readable; the caller
/// parks the task's waker and registers that interest with `wake`, a
/// callback that takes the parked waker and wakes it (any callback already
/// stored for the listener is one such callback).  When the kernel reports
/// the registration's key, the loop runs `wake`, the task is woken and
/// polls again, and an accept that now returns a connection finishes with it.
pub proof fn lemma_pending_accept_completes<S, C>(
    fd: i32,
    table: Map<i32, C>,
    wake: C,
    waiting: Step<Result<S, String>>,
    conn: S,
    woken: Step<Result<S, String>>,
)
    requires
        accept_step_holds(fd, IoOutcome::WouldBlock, waiting),
        table.contains_key(fd) ==> table[fd] == wake,
        accept_step_holds(fd, IoOutcome::Done(conn), woken),
    ensures
        waiting == Step::<Result<S, String>>::Wait(readable(fd)),
        register_request_spec(table, fd, EventType::Readable).event matches Some(ev) && ev.key == event_key(fd)
            && dispatch(after_register(table, fd, wake, true), ev.key) == Some(wake),
        woken == Step::Ready(Ok::<S, String>(conn)),
{
    crate::eventloop::lemma_registered_callback_is_dispatched(table, fd, wake, EventType::Readable);
}

/// The outcome of an accept decides the kind of step, whatever the
/// listener: a connection finishes the future with that connection; a
/// failure other than would-block finishes it with "error tcp listener
/// accept: " followed by the failure; only a would-block waits, for the
/// listener `fd` to be readable.
pub proof fn lemma_accept_outcome_decides_step<S>(fd: i32, outcome: IoOutcome<S>, p: Step<Result<S, String>>)
    requires
        accept_step_holds(fd, outcome, p),
    ensures
        outcome matches IoOutcome::Done(s) ==> p == Step::Ready(Ok::<S, String>(s)),
        outcome matches IoOutcome::Failed(e) ==> (p matches Step::Ready(Err(m)) && m@ == "error tcp listener accept: "@ + e@),
        outcome is WouldBlock ==> p == Step::<Result<S, String>>::Wait(Interest { fd: fd, event_type: EventType::Readable }),
        p is Wait <==> outcome is WouldBlock,
        p matches Step::Ready(Err(_)) <==> outcome is Failed,
{
}

/// A bind's result passes through unchanged when it succeeded, and its
/// failure becomes "error: tcp listener bind fail," followed by the failure.
pub proof fn lemma_bind_error_names_failure(e: Seq<char>)
    ensures
        bind_error(e) == "error: tcp listener bind fail,"@ + e,
        accept_error(e) == "error tcp listener accept: "@ + e,
{
}

} // verus!
