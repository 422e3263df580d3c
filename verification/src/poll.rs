//! The results that the futures' steps produce and consume.
use crate::epoll::EventType;
use vstd::prelude::*;

verus! {

/// The result of one poll of a future: finished with a value, or not yet.
#[derive(Debug, Clone, Copy, PartialEq, Eq)]
pub enum Poll<T> {
    Ready(T),
    Pending,
}

/// What a non-blocking socket operation returned: a value, the report that
/// it would block, or another error, given as its text.
#[derive(Debug, Clone, PartialEq, Eq)]
pub enum IoOutcome<T> {
    Done(T),
    WouldBlock,
    Failed(String),
}

/// Readiness to wait for: the descriptor and the kind of event.
#[derive(Debug, Clone, Copy, PartialEq, Eq, Structural)]
pub struct Interest {
    pub fd: i32,
    pub event_type: EventType,
}

/// The result of one step of a socket future: finished with a value, or
/// waiting until `Interest` is reported, which the caller carries out by
/// parking the task's waker and registering the interest with the event
/// loop, with a callback that wakes the parked waker.
#[derive(Debug, Clone, PartialEq, Eq)]
pub enum Step<T> {
    Ready(T),
    Wait(Interest),
}

/// Waiting for `fd` to become readable.
pub open spec fn readable(fd: i32) -> Interest {
    Interest { fd: fd, event_type: EventType::Readable }
}

/// The slot in which a waiting socket future parks its waker, for the
/// event loop's callback to take and wake.
pub struct WakerSlot<W> {
    waker: Option<W>,
}

impl<W> View for WakerSlot<W> {
    type V = Option<W>;

    closed spec fn view(&self) -> Option<W> {
        self.waker
    }
}

impl<W> WakerSlot<W> {
    /// An empty slot.
    pub fn new() -> (s: Self)
        ensures
            s@ is None,
    {
        WakerSlot { waker: None }
    }

    /// Parks `waker`, replacing any waker parked before.
    pub fn park(&mut self, waker: W)
        ensures
            final(self)@ == Some(waker),
    {
        self.waker = Some(waker);
    }

    /// Takes the parked waker out to be woken, leaving the slot empty.
    pub fn take_waker(&mut self) -> (w: Option<W>)
        ensures
            w == old(self)@,
            final(self)@ is None,
    {
        self.waker.take()
    }
}

} // verus!
