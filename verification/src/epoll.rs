//! The epoll vocabulary: interest kinds, control requests and their codes.
use vstd::prelude::*;

verus! {

/// The value of `libc::EPOLLIN`; libc declares it as `0x1` on every target that has it (Linux, Fuchsia, illumos and Redox).
#[verifier::external_body]
fn epoll_in() -> (v: i32)
    ensures
        v == 0x1,
{
    libc::EPOLLIN
}

/// The value of `libc::EPOLLOUT`; libc declares it as `0x4` on every target that has it (Linux, Fuchsia, illumos and Redox).
#[verifier::external_body]
fn epoll_out() -> (v: i32)
    ensures
        v == 0x4,
{
    libc::EPOLLOUT
}

/// The value of `libc::EPOLLONESHOT`; libc declares it as `0x40000000` on every target that has it (Linux, Fuchsia, illumos and Redox).
#[verifier::external_body]
fn epoll_oneshot() -> (v: i32)
    ensures
        v == 0x4000_0000,
{
    libc::EPOLLONESHOT
}

/// What a registration waits for on a file descriptor.
#[derive(Debug, Clone, Copy, PartialEq, Eq, Structural)]
pub enum EventType {
    Readable,
    Writable,
}

/// The epoll event mask of an interest: its direction together with the
/// one-shot bit, so that every registration fires at most once until it is
/// armed again.
pub open spec fn event_flags(event_type: EventType) -> u32 {
    match event_type {
        EventType::Readable => 0x4000_0001u32,
        EventType::Writable => 0x4000_0004u32,
    }
}

impl EventType {
    /// The event mask handed to `epoll_ctl` for this interest:
    /// `EPOLLIN | EPOLLONESHOT` or `EPOLLOUT | EPOLLONESHOT`.
    pub fn to_flags(self) -> (flags: u32)
        ensures
            flags == event_flags(self),
    {
        match self {
            EventType::Readable => {
                let a = epoll_in();
                let b = epoll_oneshot();
                assert((a | b) as u32 == 0x4000_0001u32) by (bit_vector)
                    requires
                        a == 0x1i32,
                        b == 0x4000_0000i32,
                ;
                (a | b) as u32
            },
            EventType::Writable => {
                let a = epoll_out();
                let b = epoll_oneshot();
                assert((a | b) as u32 == 0x4000_0004u32) by (bit_vector)
                    requires
                        a == 0x4i32,
                        b == 0x4000_0000i32,
                ;
                (a | b) as u32
            },
        }
    }
}

/// The value of `libc::FD_CLOEXEC`: libc declares it as `0x1` on every
/// Unix target but Redox, where it is `0x0100_0000`.
#[verifier::external_body]
fn fd_cloexec() -> (v: i32)
    ensures
        v == 0x1 || v == 0x0100_0000,
{
    libc::FD_CLOEXEC
}

/// The descriptor flags of the epoll instance once close-on-exec is set:
/// the flags read with `F_GETFD`, with the target's `FD_CLOEXEC` bit added.
pub fn with_cloexec(flags: i32) -> (r: i32)
    ensures
        r == flags | 0x1i32 || r == flags | 0x0100_0000i32,
{
    flags | fd_cloexec()
}

/// An event on a file descriptor, as the runtime reports it.
#[derive(Debug, Clone, Copy, PartialEq, Eq, Structural)]
pub struct Event {
    pub fd: i32,
    pub event_type: EventType,
}

/// The value of `libc::EPOLL_CTL_ADD`; libc declares it as `1` on every target that has it (Linux, Fuchsia, illumos and Redox).
#[verifier::external_body]
fn epoll_ctl_add_code() -> (v: i32)
    ensures
        v == 1,
{
    libc::EPOLL_CTL_ADD
}

/// The value of `libc::EPOLL_CTL_MOD`; libc declares it as `3` on every target that has it (Linux, Fuchsia, illumos and Redox).
#[verifier::external_body]
fn epoll_ctl_mod_code() -> (v: i32)
    ensures
        v == 3,
{
    libc::EPOLL_CTL_MOD
}

/// The value of `libc::EPOLL_CTL_DEL`; libc declares it as `2` on every target that has it (Linux, Fuchsia, illumos and Redox).
#[verifier::external_body]
fn epoll_ctl_del_code() -> (v: i32)
    ensures
        v == 2,
{
    libc::EPOLL_CTL_DEL
}

/// The operation of an `epoll_ctl` call.
#[derive(Debug, Clone, Copy, PartialEq, Eq, Structural)]
pub enum CtlOp {
    Add,
    Modify,
    Delete,
}

/// The `op` argument of `epoll_ctl` for each operation.
pub open spec fn ctl_code(op: CtlOp) -> i32 {
    match op {
        CtlOp::Add => 1i32,
        CtlOp::Modify => 3i32,
        CtlOp::Delete => 2i32,
    }
}

impl CtlOp {
    /// The `op` argument of `epoll_ctl`: `EPOLL_CTL_ADD`, `EPOLL_CTL_MOD`
    /// or `EPOLL_CTL_DEL`.
    pub fn code(self) -> (c: i32)
        ensures
            c == ctl_code(self),
    {
        match self {
            CtlOp::Add => epoll_ctl_add_code(),
            CtlOp::Modify => epoll_ctl_mod_code(),
            CtlOp::Delete => epoll_ctl_del_code(),
        }
    }
}

/// The contents of an `epoll_event`: the event mask and the 64-bit key that
/// the kernel hands back when the event fires.
#[derive(Debug, Clone, Copy, PartialEq, Eq, Structural)]
pub struct EpollEvent {
    pub events: u32,
    pub key: u64,
}

/// One `epoll_ctl` call to be made: the operation, the file descriptor and,
/// except for a deletion, the event that describes the interest.
#[derive(Debug, Clone, Copy, PartialEq, Eq, Structural)]
pub struct CtlRequest {
    pub op: CtlOp,
    pub fd: i32,
    pub event: Option<EpollEvent>,
}

/// The key under which a file descriptor is registered: the descriptor
/// widened to 64 bits, as `fd as u64` does.
pub open spec fn event_key(fd: i32) -> u64 {
    fd as u64
}

/// The file descriptor that an event key names: its low 32 bits, as
/// `key as i32` does.
pub open spec fn key_fd(key: u64) -> i32 {
    key as i32
}

/// The key that an event carries, computed as the runtime computes it.
pub fn key_of(fd: i32) -> (key: u64)
    ensures
        key == event_key(fd),
{
    fd as u64
}

/// The file descriptor that an event key names.
pub fn fd_of(key: u64) -> (fd: i32)
    ensures
        fd == key_fd(key),
{
    key as i32
}

/// An event key gives back the descriptor it was made from: a callback
/// registered under `fd` is found again from the key the kernel reports.
pub proof fn lemma_key_round_trip(fd: i32)
    ensures
        key_fd(event_key(fd)) == fd,
{
    assert((fd as u64) as i32 == fd) by (bit_vector);
}

/// The event masks are one-shot and point the right way: both carry
/// `EPOLLONESHOT` (`0x4000_0000`); a readable interest carries `EPOLLIN`
/// (`0x1`) and not `EPOLLOUT` (`0x4`), a writable one the reverse; and no
/// other bit is set.
pub proof fn lemma_event_flags_bits(event_type: EventType)
    ensures
        event_flags(event_type) & 0x4000_0000u32 == 0x4000_0000u32,
        event_type == EventType::Readable ==> event_flags(event_type) & 0x1u32 == 0x1u32 && event_flags(event_type)
            & 0x4u32 == 0u32,
        event_type == EventType::Writable ==> event_flags(event_type) & 0x4u32 == 0x4u32 && event_flags(event_type)
            & 0x1u32 == 0u32,
        event_flags(event_type) & !0x4000_0005u32 == 0u32,
{
    let f = event_flags(event_type);
    assert(f == 0x4000_0001u32 ==> f & 0x4000_0000u32 == 0x4000_0000u32 && f & 0x1u32 == 0x1u32 && f & 0x4u32 == 0u32
        && f & !0x4000_0005u32 == 0u32) by (bit_vector);
    assert(f == 0x4000_0004u32 ==> f & 0x4000_0000u32 == 0x4000_0000u32 && f & 0x4u32 == 0x4u32 && f & 0x1u32 == 0u32
        && f & !0x4000_0005u32 == 0u32) by (bit_vector);
}

/// The operation codes are libc's `EPOLL_CTL_ADD`, `EPOLL_CTL_MOD` and
/// `EPOLL_CTL_DEL`, and tell the three operations apart.
pub proof fn lemma_ctl_codes(op: CtlOp)
    ensures
        op == CtlOp::Add ==> ctl_code(op) == 1,
        op == CtlOp::Modify ==> ctl_code(op) == 3,
        op == CtlOp::Delete ==> ctl_code(op) == 2,
        forall|other: CtlOp| ctl_code(other) == ctl_code(op) ==> other == op,
{
}

/// The key of a descriptor is the descriptor widened to 64 bits, and the
/// descriptor named by a key is its low 32 bits.
pub proof fn lemma_key_is_widened_descriptor(fd: i32, key: u64)
    ensures
        event_key(fd) == fd as u64,
        key_fd(key) == key as i32,
        key_fd(event_key(fd)) == fd,
{
    lemma_key_round_trip(fd);
}

} // verus!
