//! The state that a timer shares with the thread that sleeps for it.
//!
//! Polling a timer that has not fired stores the poller's waker; firing the
//! timer marks it completed and hands back the stored waker, which the
//! sleeping thread then wakes.  A completed timer stays completed.
use crate::poll::Poll;
use vstd::prelude::*;

verus! {

/// The abstract state of a timer: whether it fired, and the waker of the
/// latest poll that found it unfired.
pub struct TimerState<W> {
    pub completed: bool,
    pub waker: Option<W>,
}

impl<W> TimerState<W> {
    /// The result of a poll in this state.
    pub open spec fn poll_result(self) -> Poll<()> {
        if self.completed {
            Poll::Ready(())
        } else {
            Poll::Pending
        }
    }

    /// The state after a poll with `waker`: an unfired timer keeps the
    /// waker, a fired one is left as it is.
    pub open spec fn after_poll(self, waker: W) -> TimerState<W> {
        if self.completed {
            self
        } else {
            TimerState { completed: false, waker: Some(waker) }
        }
    }

    /// The state after the timer fired: completed, with the waker handed out.
    pub open spec fn after_fire(self) -> TimerState<W> {
        TimerState { completed: true, waker: None }
    }
}

/// A timer's shared state.
pub struct TimerFuture<W> {
    completed: bool,
    waker: Option<W>,
}

impl<W> View for TimerFuture<W> {
    type V = TimerState<W>;

    closed spec fn view(&self) -> TimerState<W> {
        TimerState { completed: self.completed, waker: self.waker }
    }
}

impl<W> TimerFuture<W> {
    /// A timer that has not fired and was never polled.
    pub fn new() -> (t: Self)
        ensures
            t@ == (TimerState::<W> { completed: false, waker: None }),
    {
        TimerFuture { completed: false, waker: None }
    }

    /// Whether the timer fired.
    pub fn is_completed(&self) -> (b: bool)
        ensures
            b == self@.completed,
    {
        self.completed
    }

    /// One poll with the poller's `waker`: ready once the timer fired;
    /// otherwise pending, with `waker` stored to be woken when it fires.
    pub fn poll(&mut self, waker: W) -> (p: Poll<()>)
        ensures
            p == old(self)@.poll_result(),
            final(self)@ == old(self)@.after_poll(waker),
    {
        if self.completed {
            Poll::Ready(())
        } else {
            self.waker = Some(waker);
            Poll::Pending
        }
    }

    /// Fires the timer: it is completed from now on, and the waker of the
    /// latest pending poll, if any, is handed back to be woken.
    pub fn fire(&mut self) -> (w: Option<W>)
        ensures
            w == old(self)@.waker,
            final(self)@ == old(self)@.after_fire(),
    {
        self.completed = true;
        let w = self.waker.take();
        w
    }
}

/// Once a timer fired, every poll finds it ready, however often it is
/// polled and whatever it was before.
pub proof fn lemma_fired_timer_stays_ready<W>(s: TimerState<W>, first: W, second: W)
    ensures
        s.after_fire().poll_result() == Poll::<()>::Ready(()),
        s.after_fire().after_poll(first).poll_result() == Poll::<()>::Ready(()),
        s.after_fire().after_poll(first).after_poll(second).completed,
{
}

/// A poll that finds the timer unfired is pending, and firing the timer
/// afterwards hands back that poll's waker, so the poller is woken.
pub proof fn lemma_pending_poller_is_woken<W>(s: TimerState<W>, waker: W)
    requires
        !s.completed,
    ensures
        s.poll_result() == Poll::<()>::Pending,
        s.after_poll(waker).waker == Some(waker),
{
}

/// Firing hands a waker out at most once: after a firing, another firing
/// finds no waker to wake.
pub proof fn lemma_waker_handed_out_once<W>(s: TimerState<W>)
    ensures
        s.after_fire().waker is None,
        s.after_fire().after_fire() == s.after_fire(),
{
}

/// The state after a sequence of polls, one per waker in `wakers`, with
/// no firing in between.
pub open spec fn polled<W>(s: TimerState<W>, wakers: Seq<W>) -> TimerState<W>
    decreases wakers.len(),
{
    if wakers.len() == 0 {
        s
    } else {
        polled(s, wakers.drop_last()).after_poll(wakers.last())
    }
}

/// A timer is ready only after it fired: however often an unfired timer is
/// polled, it stays unfired and every poll is pending, holding the latest
/// poller's waker.  Only the firing, which comes when its duration has
/// passed, makes it ready.
pub proof fn lemma_unfired_timer_stays_pending<W>(s: TimerState<W>, wakers: Seq<W>)
    requires
        !s.completed,
    ensures
        !polled(s, wakers).completed,
        polled(s, wakers).poll_result() == Poll::<()>::Pending,
        wakers.len() > 0 ==> polled(s, wakers).waker == Some(wakers.last()),
    decreases wakers.len(),
{
    if wakers.len() > 0 {
        lemma_unfired_timer_stays_pending(s, wakers.drop_last());
    }
}

/// What one poll and one firing do: a poll is ready exactly when the
/// timer fired, and then changes nothing; a poll of an unfired timer is
/// pending, leaves it unfired and keeps the poller's waker; firing leaves
/// the timer fired with no waker kept.
pub proof fn lemma_poll_and_fire<W>(s: TimerState<W>, waker: W)
    ensures
        (s.poll_result() == Poll::<()>::Ready(())) == s.completed,
        (s.poll_result() == Poll::<()>::Pending) == !s.completed,
        s.completed ==> s.after_poll(waker) == s,
        !s.completed ==> !s.after_poll(waker).completed && s.after_poll(waker).waker == Some(waker),
        s.after_fire().completed,
        s.after_fire().waker is None,
{
}

} // verus!
