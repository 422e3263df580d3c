//! The steps of reading from a non-blocking TCP stream.
//!
//! A read future reads one chunk into a fresh buffer of `READ_CHUNK` zero
//! bytes.  A read of some bytes finishes with the bytes read; a read of none
//! means the peer closed the stream and finishes with an error; a read that
//! would block waits until the stream is readable; any
//! other error finishes with its message.  The bytes read are then copied
//! into the caller's buffer, which is cleared first.
use crate::epoll::EventType;
use crate::poll::{readable, Interest, IoOutcome, Step};
use crate::epoll::event_key;
use crate::eventloop::{after_register, dispatch, register_request_spec};
use vstd::prelude::*;
use vstd::string::StringExecFns;

verus! {

/// The size of the buffer that one read fills.
pub const READ_CHUNK: usize = 1024;

/// The message of a read that found the stream closed.
pub open spec fn closed_error() -> Seq<char> {
    "error buf len = 0"@
}

/// The message of a failed read.
pub open spec fn read_error(e: Seq<char>) -> Seq<char> {
    "error tcp stream read: "@ + e
}

/// The caller's buffer after receiving `data`: the bytes that fit, then
/// zeros up to the buffer's length.
pub open spec fn filled(len: nat, data: Seq<u8>) -> Seq<u8> {
    let n = if len < data.len() {
        len
    } else {
        data.len()
    };
    data.subrange(0, n as int) + Seq::new((len - n) as nat, |i: int| 0u8)
}

/// What one read step on the stream `fd` yields, given the chunk `buf`
/// handed to the socket and what the read returned.  `Done(n)` with
/// `0 < n <= buf.len()` yields the first `n` bytes; `Done(0)` is the closed
/// stream's error; a count above the buffer's length yields the whole
/// buffer; `WouldBlock` waits until the stream is readable; `Failed(e)`
/// yields the read error.
pub open spec fn read_step_holds(fd: i32, buf: Seq<u8>, outcome: IoOutcome<usize>, p: Step<Result<Vec<u8>, String>>) -> bool {
    match outcome {
        IoOutcome::Done(n) => if n > buf.len() {
            p matches Step::Ready(Ok(b)) && b@ == buf
        } else if n == 0 {
            p matches Step::Ready(Err(m)) && m@ == closed_error()
        } else {
            p matches Step::Ready(Ok(b)) && b@ == buf.subrange(0, n as int)
        },
        IoOutcome::WouldBlock => p == Step::<Result<Vec<u8>, String>>::Wait(readable(fd)),
        IoOutcome::Failed(e) => p matches Step::Ready(Err(m)) && m@ == read_error(e@),
    }
}

/// The chunk that one read fills: `READ_CHUNK` zero bytes.
pub open spec fn zero_chunk() -> Seq<u8> {
    Seq::new(READ_CHUNK as nat, |i: int| 0u8)
}

/// A fresh chunk for one read: `READ_CHUNK` zero bytes.
pub fn read_chunk() -> (v: Vec<u8>)
    ensures
        v@ == zero_chunk(),
{
    let mut v: Vec<u8> = Vec::new();
    let mut i: usize = 0;
    while i < READ_CHUNK
        invariant
            i <= READ_CHUNK,
            v@ == Seq::new(i as nat, |j: int| 0u8),
        decreases READ_CHUNK - i,
    {
        v.push(0u8);
        i = i + 1;
    }
    v
}

/// Finishes one read attempt on the stream `fd` into `buf` (the chunk
/// handed to the socket) given what the read returned.
pub fn read_step(fd: i32, buf: Vec<u8>, outcome: IoOutcome<usize>) -> (p: Step<Result<Vec<u8>, String>>)
    ensures
        read_step_holds(fd, buf@, outcome, p),
{
    match outcome {
        IoOutcome::Done(n) => {
            if n > buf.len() {
                Step::Ready(Ok(buf))
            } else if n == 0 {
                Step::Ready(Err(String::from_str("error buf len = 0")))
            } else {
                let mut data = buf;
                data.truncate(n);
                Step::Ready(Ok(data))
            }
        },
        IoOutcome::WouldBlock => Step::Wait(Interest { fd, event_type: EventType::Readable }),
        IoOutcome::Failed(e) => Step::Ready(Err(String::from_str("error tcp stream read: ").concat(e.as_str()))),
    }
}

/// Copies the bytes of one read into the caller's buffer: the buffer is
/// cleared, as many bytes as fit are copied to its front, and their number
/// is returned.
pub fn fill_read_buffer(buf: &mut [u8], data: &[u8]) -> (n: usize)
    ensures
        n == (if old(buf)@.len() < data@.len() {
            old(buf)@.len() as int
        } else {
            data@.len() as int
        }),
        final(buf)@ == filled(old(buf)@.len(), data@),
{
    let len = buf.len();
    let n = if len < data.len() {
        len
    } else {
        data.len()
    };
    let mut i: usize = 0;
    while i < len
        invariant
            buf@.len() == len,
            len == old(buf)@.len(),
            n <= len,
            n <= data@.len(),
            n == (if len < data@.len() {
                len as int
            } else {
                data@.len() as int
            }),
            i <= len,
            forall|j: int| 0 <= j < i ==> #[trigger] buf@[j] == filled(len as nat, data@)[j],
        decreases len - i,
    {
        if i < n {
            buf[i] = data[i];
        } else {
            buf[i] = 0;
        }
        i = i + 1;
    }
    assert(buf@ =~= filled(len as nat, data@));
    n
}

/// Finishes a read into the caller's buffer: the bytes the read future
/// returned are copied as `fill_read_buffer` does and their count is
/// returned; the future's error is returned as it is, with the buffer left
/// untouched.
pub fn finish_read(buf: &mut [u8], result: Result<Vec<u8>, String>) -> (r: Result<usize, String>)
    ensures
        match result {
            Ok(data) => r matches Ok(n) && n == (if old(buf)@.len() < data@.len() {
                old(buf)@.len() as int
            } else {
                data@.len() as int
            }) && final(buf)@ == filled(old(buf)@.len(), data@),
            Err(e) => r matches Err(m) && m@ == e@ && final(buf)@ == old(buf)@,
        },
{
    match result {
        Ok(data) => Ok(fill_read_buffer(buf, data.as_slice())),
        Err(e) => Err(e),
    }
}

/// The count that a read reports: a read step on a fresh chunk that
/// finishes with bytes yields between 1 and `READ_CHUNK` of them, so the
/// count copied into a caller's buffer is at most `READ_CHUNK` and at most
/// the buffer's length, and at least 1 when the buffer is not empty.
pub proof fn lemma_read_count_bounds(fd: i32, outcome: IoOutcome<usize>, step: Step<Result<Vec<u8>, String>>, caller_len: nat)
    requires
        read_step_holds(fd, zero_chunk(), outcome, step),
    ensures
        step matches Step::Ready(Ok(bytes)) ==> {
            let n = if caller_len < bytes@.len() {
                caller_len
            } else {
                bytes@.len()
            };
            &&& 1 <= bytes@.len() <= READ_CHUNK
            &&& n <= READ_CHUNK
            &&& n <= caller_len
            &&& (caller_len >= 1 ==> n >= 1)
        },
{
}

/// The bytes that a read returns reach the caller intact: copied into a
/// buffer that can hold them, they stand at its front, in order, and the
/// count returned is their number.
pub proof fn lemma_read_bytes_reach_caller(chunk: Seq<u8>, n: nat, caller_len: nat)
    requires
        0 < n <= chunk.len(),
        n <= caller_len,
    ensures
        filled(caller_len, chunk.subrange(0, n as int)).len() == caller_len,
        filled(caller_len, chunk.subrange(0, n as int)).subrange(0, n as int) == chunk.subrange(0, n as int),
{
    let data = chunk.subrange(0, n as int);
    let f = filled(caller_len, data);
    assert(data.subrange(0, n as int) =~= data);
    assert(f.subrange(0, n as int) =~= data);
}

/// A pending read completes once the event loop wakes it.  A read that
/// would block waits for the stream to become readable; the caller parks
/// the task's waker and registers that interest with `wake`, a callback
/// that takes the parked waker and wakes it (any callback already stored
/// for the stream is one such callback).  When the kernel reports the
/// registration's key, the loop runs `wake`, the task polls again, and a
/// read of `n` bytes into the chunk finishes with them; copied into the
/// caller's buffer they stand at its front.
pub proof fn lemma_pending_read_completes<C>(
    fd: i32,
    table: Map<i32, C>,
    wake: C,
    chunk: Seq<u8>,
    waiting: Step<Result<Vec<u8>, String>>,
    n: usize,
    woken: Step<Result<Vec<u8>, String>>,
    caller_len: nat,
)
    requires
        read_step_holds(fd, chunk, IoOutcome::WouldBlock, waiting),
        table.contains_key(fd) ==> table[fd] == wake,
        0 < n <= chunk.len(),
        n <= caller_len,
        read_step_holds(fd, chunk, IoOutcome::Done(n), woken),
    ensures
        waiting == Step::<Result<Vec<u8>, String>>::Wait(readable(fd)),
        register_request_spec(table, fd, EventType::Readable).event matches Some(ev) && ev.key == event_key(fd)
            && dispatch(after_register(table, fd, wake, true), ev.key) == Some(wake),
        woken matches Step::Ready(Ok(bytes)) && bytes@ == chunk.subrange(0, n as int) && filled(
            caller_len,
            bytes@,
        ).subrange(0, n as int) == chunk.subrange(0, n as int),
{
    crate::eventloop::lemma_registered_callback_is_dispatched(table, fd, wake, EventType::Readable);
    lemma_read_bytes_reach_caller(chunk, n as nat, caller_len);
}

/// The outcome of a read decides the kind of step, whatever the chunk
/// holds: a read of no bytes is the closed stream's error "error buf len
/// = 0"; a failed read is "error tcp stream read: " followed by the
/// failure, never bytes; a read that would block waits for the stream `fd`
/// to be readable; bytes are yielded only by a read of at least one byte,
/// and they are the chunk's first bytes, as many as were read (or the whole
/// chunk if the count exceeds it), and a read of at least one byte always
/// yields bytes.
pub proof fn lemma_read_outcome_decides_step(fd: i32, buf: Seq<u8>, outcome: IoOutcome<usize>, p: Step<Result<Vec<u8>, String>>)
    requires
        read_step_holds(fd, buf, outcome, p),
    ensures
        outcome == IoOutcome::<usize>::Done(0) ==> (p matches Step::Ready(Err(m)) && m@ == "error buf len = 0"@),
        outcome matches IoOutcome::Failed(e) ==> (p matches Step::Ready(Err(m)) && m@ == "error tcp stream read: "@ + e@),
        outcome == IoOutcome::<usize>::WouldBlock ==> p == Step::<Result<Vec<u8>, String>>::Wait(
            Interest { fd: fd, event_type: EventType::Readable },
        ),
        p matches Step::Ready(Ok(bytes)) ==> (outcome matches IoOutcome::Done(n) && n > 0 && bytes@.len() == (
        if n < buf.len() {
            n as int
        } else {
            buf.len() as int
        }) && (forall|i: int| 0 <= i < bytes@.len() ==> #[trigger] bytes@[i] == buf[i])),
        p is Wait ==> outcome == IoOutcome::<usize>::WouldBlock,
        outcome matches IoOutcome::Done(n) && n > 0 ==> p matches Step::Ready(Ok(_)),
{
}

/// The caller's buffer after a read keeps its length, holds the bytes that
/// fit at its front, in order, and is zero everywhere past them.
pub proof fn lemma_filled_clears_the_rest(len: nat, data: Seq<u8>)
    ensures
        ({
            let n = if len < data.len() {
                len as int
            } else {
                data.len() as int
            };
            let f = filled(len, data);
            &&& f.len() == len
            &&& forall|i: int| 0 <= i < n ==> #[trigger] f[i] == data[i]
            &&& forall|i: int| n <= i < len ==> #[trigger] f[i] == 0u8
        }),
{
}

/// A fresh chunk is `READ_CHUNK` (1024) bytes, all zero.
pub proof fn lemma_fresh_chunk_is_zeroed()
    ensures
        zero_chunk().len() == 1024,
        forall|i: int| 0 <= i < 1024 ==> #[trigger] zero_chunk()[i] == 0u8,
{
}

} // verus!
