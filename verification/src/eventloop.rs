//! The event loop's callback table and the decisions around each epoll call.
//!
//! The loop keeps one callback per registered file descriptor.  Registering
//! a descriptor that is not yet known adds it to the epoll set
//! (`EPOLL_CTL_ADD`) and, once the kernel accepted it, stores the callback;
//! registering a known descriptor only re-arms its one-shot interest
//! (`EPOLL_CTL_MOD`) and keeps the callback stored first.  Each event that
//! `epoll_wait` reports carries the descriptor as its key, and the callback
//! stored for that descriptor, if any, is the one to run.
use crate::epoll::{event_flags, event_key, key_fd, lemma_key_round_trip, CtlOp, CtlRequest, EpollEvent, EventType};
use std::collections::HashMap;
use vstd::prelude::*;
use vstd::string::StringExecFns;

verus! {

broadcast use vstd::std_specs::hash::group_hash_axioms;

/// How many events one `epoll_wait` call reports at most.
pub const MAX_EVENTS: i32 = 1024;

/// How long one `epoll_wait` call waits, in milliseconds.
pub const WAIT_TIMEOUT_MS: i32 = 1000;

/// The operation that registering `fd` takes, given the callback table:
/// a new descriptor is added, a known one is modified (re-armed).
pub open spec fn register_op<C>(table: Map<i32, C>, fd: i32) -> CtlOp {
    if table.contains_key(fd) {
        CtlOp::Modify
    } else {
        CtlOp::Add
    }
}

/// The `epoll_ctl` call that registers interest `event_type` on `fd`.
pub open spec fn register_request_spec<C>(table: Map<i32, C>, fd: i32, event_type: EventType) -> CtlRequest {
    CtlRequest {
        op: register_op(table, fd),
        fd: fd,
        event: Some(EpollEvent { events: event_flags(event_type), key: event_key(fd) }),
    }
}

/// The `epoll_ctl` call that removes `fd` from the epoll set.
pub open spec fn unregister_request_spec(fd: i32) -> CtlRequest {
    CtlRequest { op: CtlOp::Delete, fd: fd, event: None }
}

/// The callback table after a registration of `fd` whose `epoll_ctl` call
/// succeeded or not: only a successful addition stores the callback.
pub open spec fn after_register<C>(table: Map<i32, C>, fd: i32, callback: C, succeeded: bool) -> Map<i32, C> {
    if succeeded && !table.contains_key(fd) {
        table.insert(fd, callback)
    } else {
        table
    }
}

/// The callback table after an unregistration of `fd` whose `epoll_ctl`
/// call succeeded or not.
pub open spec fn after_unregister<C>(table: Map<i32, C>, fd: i32, succeeded: bool) -> Map<i32, C> {
    if succeeded {
        table.remove(fd)
    } else {
        table
    }
}

/// The callback that an event with key `key` runs, if any.
pub open spec fn dispatch<C>(table: Map<i32, C>, key: u64) -> Option<C> {
    if table.contains_key(key_fd(key)) {
        Some(table[key_fd(key)])
    } else {
        None
    }
}

/// The message of a failed registration: it names the operation tried.
pub open spec fn register_error<C>(table: Map<i32, C>, fd: i32, e: Seq<char>) -> Seq<char> {
    if table.contains_key(fd) {
        "error: epoll_ctl_mod:"@ + e
    } else {
        "error: epoll_ctl_add:"@ + e
    }
}

/// The message of a failed unregistration.
pub open spec fn unregister_error(e: Seq<char>) -> Seq<char> {
    "error: epoll_ctl_delete:"@ + e
}

/// The message of a failed wait.
pub open spec fn wait_error(e: Seq<char>) -> Seq<char> {
    "error: epoll_ctl_wait:"@ + e
}

/// The state of an event loop: its epoll instance and the callback of each
/// registered file descriptor.
pub struct EventLoop<C> {
    epoll_fd: i32,
    callbacks: HashMap<i32, C>,
}

impl<C> View for EventLoop<C> {
    type V = Map<i32, C>;

    /// The callback table.
    closed spec fn view(&self) -> Map<i32, C> {
        self.callbacks@
    }
}

impl<C> EventLoop<C> {
    /// The epoll instance of this loop.
    pub closed spec fn spec_epoll_fd(&self) -> i32 {
        self.epoll_fd
    }

    /// A loop on the epoll instance `epoll_fd`, with no callback registered.
    pub fn new(epoll_fd: i32) -> (r: Self)
        ensures
            r.spec_epoll_fd() == epoll_fd,
            r@ == Map::<i32, C>::empty(),
    {
        EventLoop { epoll_fd, callbacks: HashMap::new() }
    }

    /// The epoll instance of this loop.
    pub fn epoll_fd(&self) -> (fd: i32)
        ensures
            fd == self.spec_epoll_fd(),
    {
        self.epoll_fd
    }

    /// Whether a callback is registered for `fd`.
    pub fn is_registered(&self, fd: i32) -> (b: bool)
        ensures
            b == self@.contains_key(fd),
    {
        self.callbacks.contains_key(&fd)
    }

    /// The `epoll_ctl` call that registering interest `event_type` on `fd`
    /// makes: `EPOLL_CTL_MOD` for a registered descriptor, `EPOLL_CTL_ADD`
    /// otherwise, with the interest's one-shot mask and the descriptor as key.
    pub fn register_request(&self, fd: i32, event_type: EventType) -> (req: CtlRequest)
        ensures
            req == register_request_spec(self@, fd, event_type),
    {
        let op = if self.is_registered(fd) {
            CtlOp::Modify
        } else {
            CtlOp::Add
        };
        CtlRequest { op, fd, event: Some(EpollEvent { events: event_type.to_flags(), key: fd as u64 }) }
    }

    /// Completes the registration of `fd` once its `epoll_ctl` call (the one
    /// `register_request` describes) returned `outcome`, the error text if
    /// it failed.  A successful addition stores `callback`; a successful
    /// modification keeps the callback stored first; a failure changes
    /// nothing and is reported with the operation's name.
    pub fn register(&mut self, fd: i32, callback: C, outcome: Result<(), String>) -> (r: Result<(), String>)
        ensures
            final(self).spec_epoll_fd() == old(self).spec_epoll_fd(),
            final(self)@ == after_register(old(self)@, fd, callback, outcome is Ok),
            match outcome {
                Ok(_) => r is Ok,
                Err(e) => r matches Err(m) && m@ == register_error(old(self)@, fd, e@),
            },
    {
        let known = self.is_registered(fd);
        match outcome {
            Ok(()) => {
                if !known {
                    let _ = self.callbacks.insert(fd, callback);
                }
                Ok(())
            },
            Err(e) => {
                let head = if known {
                    String::from_str("error: epoll_ctl_mod:")
                } else {
                    String::from_str("error: epoll_ctl_add:")
                };
                Err(head.concat(e.as_str()))
            },
        }
    }

    /// The `epoll_ctl` call that unregistering `fd` makes: `EPOLL_CTL_DEL`,
    /// with no event.
    pub fn unregister_request(&self, fd: i32) -> (req: CtlRequest)
        ensures
            req == unregister_request_spec(fd),
    {
        CtlRequest { op: CtlOp::Delete, fd, event: None }
    }

    /// Completes the unregistration of `fd` once its `epoll_ctl` call
    /// returned `outcome`: on success the callback of `fd` is dropped; a
    /// failure changes nothing and is reported.
    pub fn unregister(&mut self, fd: i32, outcome: Result<(), String>) -> (r: Result<(), String>)
        ensures
            final(self).spec_epoll_fd() == old(self).spec_epoll_fd(),
            final(self)@ == after_unregister(old(self)@, fd, outcome is Ok),
            match outcome {
                Ok(_) => r is Ok,
                Err(e) => r matches Err(m) && m@ == unregister_error(e@),
            },
    {
        match outcome {
            Ok(()) => {
                let _ = self.callbacks.remove(&fd);
                Ok(())
            },
            Err(e) => Err(String::from_str("error: epoll_ctl_delete:").concat(e.as_str())),
        }
    }

    /// The outcome of one `epoll_wait` call, given as the keys of the
    /// events it reported or its error text: the keys pass through, an
    /// error ends the loop with its message.
    pub fn wait_outcome(outcome: Result<Vec<u64>, String>) -> (r: Result<Vec<u64>, String>)
        ensures
            match outcome {
                Ok(keys) => r matches Ok(ks) && ks@ == keys@,
                Err(e) => r matches Err(m) && m@ == wait_error(e@),
            },
    {
        match outcome {
            Ok(keys) => Ok(keys),
            Err(e) => Err(String::from_str("error: epoll_ctl_wait:").concat(e.as_str())),
        }
    }

    /// The callback to run for a reported event with key `key`: the one
    /// registered for the descriptor the key names, if any.
    pub fn callback_for_key(&self, key: u64) -> (r: Option<&C>)
        ensures
            match r {
                Some(c) => dispatch(self@, key) == Some(*c),
                None => dispatch(self@, key) is None,
            },
    {
        let fd = key as i32;
        self.callbacks.get(&fd)
    }
}

/// After a successful registration of `fd`, the event that the kernel
/// reports with the registration's key runs a callback: the one just given
/// if `fd` was new, the one stored first if it was already registered.
pub proof fn lemma_registered_callback_is_dispatched<C>(table: Map<i32, C>, fd: i32, callback: C, event_type: EventType)
    ensures
        register_request_spec(table, fd, event_type).event matches Some(ev)
            && dispatch(after_register(table, fd, callback, true), ev.key) == Some(
            if table.contains_key(fd) {
                table[fd]
            } else {
                callback
            },
        ),
{
    lemma_key_round_trip(fd);
}

/// After a successful unregistration of `fd`, no event with its key runs a
/// callback, and a later registration of `fd` adds it to the epoll set again.
pub proof fn lemma_unregistered_fd_is_not_dispatched<C>(table: Map<i32, C>, fd: i32)
    ensures
        dispatch(after_unregister(table, fd, true), event_key(fd)) is None,
        register_op(after_unregister(table, fd, true), fd) == CtlOp::Add,
{
    lemma_key_round_trip(fd);
}

/// A registration or unregistration whose `epoll_ctl` call failed leaves
/// the callback table as it was.
pub proof fn lemma_failed_call_keeps_table<C>(table: Map<i32, C>, fd: i32, callback: C)
    ensures
        after_register(table, fd, callback, false) == table,
        after_unregister(table, fd, false) == table,
{
}

/// Registering or unregistering `fd` does not change which callback the
/// events of any other descriptor run.
pub proof fn lemma_other_descriptors_untouched<C>(table: Map<i32, C>, fd: i32, other: i32, callback: C, succeeded: bool)
    requires
        other != fd,
    ensures
        dispatch(after_register(table, fd, callback, succeeded), event_key(other)) == dispatch(table, event_key(other)),
        dispatch(after_unregister(table, fd, succeeded), event_key(other)) == dispatch(table, event_key(other)),
{
    lemma_key_round_trip(other);
}

/// Registering the same descriptor twice in a row, both calls successful,
/// leaves the table as the first registration left it: the second call
/// only re-arms the interest and keeps the first callback.
pub proof fn lemma_second_registration_keeps_first_callback<C>(table: Map<i32, C>, fd: i32, first: C, second: C)
    ensures
        register_op(after_register(table, fd, first, true), fd) == CtlOp::Modify,
        after_register(after_register(table, fd, first, true), fd, second, true) == after_register(table, fd, first, true),
{
}

/// The descriptors in the interest set of the epoll instance after an
/// `epoll_ctl` call `req` that succeeded or not: a successful addition puts
/// the descriptor in, a successful deletion takes it out, anything else
/// leaves the set as it was.
pub open spec fn watched_after(watched: Set<i32>, req: CtlRequest, succeeded: bool) -> Set<i32> {
    if !succeeded {
        watched
    } else {
        match req.op {
            CtlOp::Add => watched.insert(req.fd),
            CtlOp::Modify => watched,
            CtlOp::Delete => watched.remove(req.fd),
        }
    }
}

/// Every registered descriptor stays in the kernel's interest set: if the
/// callback table's descriptors are all watched before a registration or an
/// unregistration, they still are after it, whether its `epoll_ctl` call
/// succeeded or failed.
pub proof fn lemma_table_stays_watched<C>(
    table: Map<i32, C>,
    watched: Set<i32>,
    fd: i32,
    callback: C,
    event_type: EventType,
    succeeded: bool,
)
    requires
        table.dom().subset_of(watched),
    ensures
        after_register(table, fd, callback, succeeded).dom().subset_of(
            watched_after(watched, register_request_spec(table, fd, event_type), succeeded),
        ),
        after_unregister(table, fd, succeeded).dom().subset_of(
            watched_after(watched, unregister_request_spec(fd), succeeded),
        ),
{
}

/// One thing that happens to an epoll instance: an `epoll_ctl` call that
/// succeeded or not, or the report of an event with a key.
pub enum KernelStep {
    Ctl(CtlRequest, bool),
    Report(u64),
}

/// The descriptors whose one-shot interest is armed after `step`: a
/// successful addition or modification arms the descriptor, a successful
/// deletion disarms it, and a report disarms the descriptor it names, since
/// every interest the loop registers carries `EPOLLONESHOT`.
pub open spec fn armed_after(armed: Set<i32>, step: KernelStep) -> Set<i32> {
    match step {
        KernelStep::Ctl(req, succeeded) => if !succeeded {
            armed
        } else {
            match req.op {
                CtlOp::Add => armed.insert(req.fd),
                CtlOp::Modify => armed.insert(req.fd),
                CtlOp::Delete => armed.remove(req.fd),
            }
        },
        KernelStep::Report(key) => armed.remove(key_fd(key)),
    }
}

/// The armed descriptors after a sequence of steps.
pub open spec fn armed_through(armed: Set<i32>, steps: Seq<KernelStep>) -> Set<i32>
    decreases steps.len(),
{
    if steps.len() == 0 {
        armed
    } else {
        armed_after(armed_through(armed, steps.drop_last()), steps.last())
    }
}

/// Whether `step` arms `fd`: a successful addition or modification of it.
pub open spec fn arms(step: KernelStep, fd: i32) -> bool {
    step matches KernelStep::Ctl(req, succeeded) && succeeded && req.fd == fd && req.op != CtlOp::Delete
}

/// Every interest the loop registers is one-shot: the mask of each
/// registration request holds `EPOLLONESHOT`.
pub proof fn lemma_registrations_are_one_shot<C>(table: Map<i32, C>, fd: i32, event_type: EventType)
    ensures
        register_request_spec(table, fd, event_type).event matches Some(ev) && ev.events & 0x4000_0000u32
            == 0x4000_0000u32,
{
    let f = event_flags(event_type);
    assert(f == 0x4000_0001u32 || f == 0x4000_0004u32);
    assert(f == 0x4000_0001u32 ==> f & 0x4000_0000u32 == 0x4000_0000u32) by (bit_vector);
    assert(f == 0x4000_0004u32 ==> f & 0x4000_0000u32 == 0x4000_0000u32) by (bit_vector);
}

/// At most one dispatch per arming: once the event of `fd` has been
/// reported, `fd` stays disarmed, so the kernel reports it (and the loop
/// runs its callback) no more, whatever happens to other descriptors,
/// until a successful registration of `fd` arms it again.
pub proof fn lemma_one_report_per_arming(armed: Set<i32>, fd: i32, steps: Seq<KernelStep>)
    requires
        forall|i: int| 0 <= i < steps.len() ==> !arms(#[trigger] steps[i], fd),
    ensures
        forall|i: int|
            0 <= i <= steps.len() ==> !#[trigger] armed_through(
                armed_after(armed, KernelStep::Report(event_key(fd))),
                steps.take(i),
            ).contains(fd),
    decreases steps.len(),
{
    lemma_key_round_trip(fd);
    let start = armed_after(armed, KernelStep::Report(event_key(fd)));
    if steps.len() > 0 {
        let prefix = steps.drop_last();
        assert forall|i: int| 0 <= i < prefix.len() implies !arms(#[trigger] prefix[i], fd) by {
            assert(prefix[i] == steps[i]);
        }
        lemma_one_report_per_arming(armed, fd, prefix);
        assert forall|i: int| 0 <= i <= steps.len() implies !#[trigger] armed_through(start, steps.take(i)).contains(fd) by {
            if i < steps.len() {
                assert(steps.take(i) =~= prefix.take(i));
            } else {
                assert(steps.take(i) =~= steps);
                assert(steps.drop_last() =~= prefix);
                assert(prefix.take(prefix.len() as int) =~= prefix);
                assert(!armed_through(start, prefix).contains(fd));
                assert(!arms(steps.last(), fd));
            }
        }
    } else {
        assert forall|i: int| 0 <= i <= steps.len() implies !#[trigger] armed_through(start, steps.take(i)).contains(fd) by {
            assert(steps.take(i) =~= steps);
        }
    }
}

/// What a registration asks of the kernel, whatever the table: the
/// descriptor itself; `EPOLL_CTL_ADD` exactly when it is not registered yet
/// and `EPOLL_CTL_MOD` exactly when it is; a readable interest as
/// `EPOLLIN | EPOLLONESHOT`, a writable one as `EPOLLOUT | EPOLLONESHOT`;
/// and the descriptor widened to 64 bits as the key.
pub proof fn lemma_register_request_shape<C>(table: Map<i32, C>, fd: i32, event_type: EventType)
    ensures
        ({
            let req = register_request_spec(table, fd, event_type);
            &&& req.fd == fd
            &&& (req.op == CtlOp::Add) == !table.contains_key(fd)
            &&& (req.op == CtlOp::Modify) == table.contains_key(fd)
            &&& req.event == Some(EpollEvent {
                events: if event_type == EventType::Readable {
                    0x4000_0001u32
                } else {
                    0x4000_0004u32
                },
                key: fd as u64,
            })
        }),
{
}

/// Unregistering always asks the kernel to delete the descriptor, with no
/// event, and a successful deletion takes it out of the interest set.
pub proof fn lemma_unregister_request_deletes(fd: i32, watched: Set<i32>)
    ensures
        unregister_request_spec(fd) == (CtlRequest { op: CtlOp::Delete, fd: fd, event: None }),
        watched_after(watched, unregister_request_spec(fd), true) == watched.remove(fd),
        watched_after(watched, unregister_request_spec(fd), false) == watched,
{
}

/// What a registration or unregistration does to the callback table: a
/// successful registration of a new descriptor stores exactly the given
/// callback for it; a registration of a known descriptor, or a failed one,
/// leaves the table as it was; a successful unregistration drops the
/// descriptor and nothing else; a failed one changes nothing.
pub proof fn lemma_table_updates<C>(table: Map<i32, C>, fd: i32, callback: C)
    ensures
        !table.contains_key(fd) ==> after_register(table, fd, callback, true).contains_key(fd)
            && after_register(table, fd, callback, true)[fd] == callback,
        table.contains_key(fd) ==> after_register(table, fd, callback, true) == table,
        after_register(table, fd, callback, false) == table,
        forall|g: i32|
            g != fd ==> {
                &&& #[trigger] after_register(table, fd, callback, true).contains_key(g) == table.contains_key(g)
                &&& table.contains_key(g) ==> after_register(table, fd, callback, true)[g] == table[g]
            },
        !after_unregister(table, fd, true).contains_key(fd),
        forall|g: i32|
            g != fd ==> {
                &&& #[trigger] after_unregister(table, fd, true).contains_key(g) == table.contains_key(g)
                &&& table.contains_key(g) ==> after_unregister(table, fd, true)[g] == table[g]
            },
        after_unregister(table, fd, false) == table,
{
}

/// The event reported for a descriptor runs exactly the callback stored
/// for it, and none when none is stored.
pub proof fn lemma_dispatch_finds_stored_callback<C>(table: Map<i32, C>, fd: i32)
    ensures
        table.contains_key(fd) ==> dispatch(table, fd as u64) == Some(table[fd]),
        !table.contains_key(fd) ==> dispatch(table, fd as u64) is None,
{
    lemma_key_round_trip(fd);
}

/// The messages of failed calls name the call and end with the failure.
pub proof fn lemma_error_messages<C>(table: Map<i32, C>, fd: i32, e: Seq<char>)
    ensures
        table.contains_key(fd) ==> register_error(table, fd, e) == "error: epoll_ctl_mod:"@ + e,
        !table.contains_key(fd) ==> register_error(table, fd, e) == "error: epoll_ctl_add:"@ + e,
        unregister_error(e) == "error: epoll_ctl_delete:"@ + e,
        wait_error(e) == "error: epoll_ctl_wait:"@ + e,
{
}

} // verus!
