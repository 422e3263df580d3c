//! The slot through which a background bind hands its result to the future
//! that waits for it.
//!
//! The binding thread puts its result into the slot and wakes the waker of
//! the latest pending poll.  A poll that finds a result takes it out, so the
//! result is delivered exactly once; a poll that finds none stores its waker.
use crate::poll::Poll;
use vstd::prelude::*;

verus! {

/// The abstract state of the slot: the result not yet taken, and the waker
/// of the latest poll that found no result.
pub struct BindState<T, W> {
    pub result: Option<T>,
    pub waker: Option<W>,
}

impl<T, W> BindState<T, W> {
    /// The result of a poll in this state.
    pub open spec fn poll_result(self) -> Poll<T> {
        match self.result {
            Some(r) => Poll::Ready(r),
            None => Poll::Pending,
        }
    }

    /// The state after a poll with `waker`: a present result is taken out;
    /// otherwise the waker is stored.
    pub open spec fn after_poll(self, waker: W) -> BindState<T, W> {
        match self.result {
            Some(_) => BindState { result: None, waker: self.waker },
            None => BindState { result: None, waker: Some(waker) },
        }
    }

    /// The state after the binding thread delivered `result`: the result is
    /// in the slot and the waker has been handed out.
    pub open spec fn after_deliver(self, result: T) -> BindState<T, W> {
        BindState { result: Some(result), waker: None }
    }
}

/// The hand-over slot of a background bind.
pub struct TcpListenerBind<T, W> {
    listener_slot: Option<T>,
    waker_slot: Option<W>,
}

impl<T, W> View for TcpListenerBind<T, W> {
    type V = BindState<T, W>;

    closed spec fn view(&self) -> BindState<T, W> {
        BindState { result: self.listener_slot, waker: self.waker_slot }
    }
}

impl<T, W> TcpListenerBind<T, W> {
    /// An empty slot: no result, no waker.
    pub fn new() -> (s: Self)
        ensures
            s@ == (BindState::<T, W> { result: None, waker: None }),
    {
        TcpListenerBind { listener_slot: None, waker_slot: None }
    }

    /// One poll with the poller's `waker`: ready with the delivered result,
    /// which leaves the slot; pending while none was delivered, with
    /// `waker` stored.
    pub fn poll(&mut self, waker: W) -> (p: Poll<T>)
        ensures
            p == old(self)@.poll_result(),
            final(self)@ == old(self)@.after_poll(waker),
    {
        match self.listener_slot.take() {
            Some(r) => Poll::Ready(r),
            None => {
                self.waker_slot = Some(waker);
                Poll::Pending
            },
        }
    }

    /// The binding thread's delivery of `result`: it is put into the slot,
    /// and the waker of the latest pending poll, if any, is handed back to
    /// be woken.
    pub fn deliver(&mut self, result: T) -> (w: Option<W>)
        ensures
            w == old(self)@.waker,
            final(self)@ == old(self)@.after_deliver(result),
    {
        self.listener_slot = Some(result);
        self.waker_slot.take()
    }
}

/// A delivered result is what the next poll returns, and it is returned
/// only once: the poll after it is pending again.
pub proof fn lemma_result_delivered_once<T, W>(s: BindState<T, W>, result: T, first: W, second: W)
    ensures
        s.after_deliver(result).poll_result() == Poll::<T>::Ready(result),
        s.after_deliver(result).after_poll(first).poll_result() == Poll::<T>::Pending,
        s.after_deliver(result).after_poll(first).after_poll(second).waker == Some(second),
{
}

/// A poll before the delivery is pending, and the delivery hands back that
/// poll's waker, so the poller is woken to collect the result.
pub proof fn lemma_early_poller_is_woken<T, W>(s: BindState<T, W>, waker: W)
    requires
        s.result is None,
    ensures
        s.poll_result() == Poll::<T>::Pending,
        s.after_poll(waker).waker == Some(waker),
{
}

/// What one poll and one delivery do: a poll is ready exactly when a
/// result is in the slot, yields that result and empties the slot, keeping
/// the waker as it was; a poll of an empty slot is pending and keeps the
/// poller's waker; a delivery puts its result in the slot and keeps no
/// waker.
pub proof fn lemma_poll_and_deliver<T, W>(s: BindState<T, W>, waker: W, result: T)
    ensures
        s.result matches Some(r) ==> s.poll_result() == Poll::<T>::Ready(r) && s.after_poll(waker).result is None
            && s.after_poll(waker).waker == s.waker,
        s.result is None ==> s.poll_result() == Poll::<T>::Pending && s.after_poll(waker).result is None
            && s.after_poll(waker).waker == Some(waker),
        s.after_deliver(result).result == Some(result),
        s.after_deliver(result).waker is None,
{
}

} // verus!
