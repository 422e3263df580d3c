use yasync_runtime::{accept_step, bind_outcome, fill_read_buffer, finish_read, read_chunk, read_step, EventLoop, EventType, Interest, IoOutcome, Step, WakerSlot, READ_CHUNK};

fn chunk() -> Vec<u8> {
    let mut v = vec![0u8; READ_CHUNK];
    v[0] = b'h';
    v[1] = b'i';
    v[2] = b'!';
    v
}

#[test]
fn read_of_some_bytes_keeps_them() {
    assert_eq!(
        read_step(11, chunk(), IoOutcome::Done(2)),
        Step::Ready(Ok(b"hi".to_vec()))
    );
}

#[test]
fn read_of_no_bytes_is_closed_stream() {
    assert_eq!(
        read_step(11, chunk(), IoOutcome::Done(0)),
        Step::Ready(Err("error buf len = 0".to_string()))
    );
}

#[test]
fn read_of_full_chunk_and_beyond() {
    assert_eq!(read_step(11, chunk(), IoOutcome::Done(READ_CHUNK)), Step::Ready(Ok(chunk())));
    assert_eq!(read_step(11, chunk(), IoOutcome::Done(READ_CHUNK + 1)), Step::Ready(Ok(chunk())));
}

#[test]
fn read_that_would_block_is_pending() {
    assert_eq!(
        read_step(11, chunk(), IoOutcome::WouldBlock),
        Step::Wait(Interest { fd: 11, event_type: EventType::Readable })
    );
}

#[test]
fn read_failure_is_reported() {
    assert_eq!(
        read_step(11, chunk(), IoOutcome::Failed("Connection reset by peer (os error 104)".to_string())),
        Step::Ready(Err("error tcp stream read: Connection reset by peer (os error 104)".to_string()))
    );
}

#[test]
fn fill_clears_and_copies_what_fits() {
    let mut buf = [9u8; 6];
    let n = fill_read_buffer(&mut buf, b"abc");
    assert_eq!(n, 3);
    assert_eq!(buf, [b'a', b'b', b'c', 0, 0, 0]);
}

#[test]
fn fill_truncates_to_buffer() {
    let mut buf = [9u8; 2];
    let n = fill_read_buffer(&mut buf, b"abc");
    assert_eq!(n, 2);
    assert_eq!(buf, [b'a', b'b']);
}

#[test]
fn fill_empty_cases() {
    let mut buf = [9u8; 3];
    assert_eq!(fill_read_buffer(&mut buf, b""), 0);
    assert_eq!(buf, [0, 0, 0]);
    let mut none: [u8; 0] = [];
    assert_eq!(fill_read_buffer(&mut none, b"xyz"), 0);
}

#[test]
fn accept_steps() {
    assert_eq!(accept_step(4, IoOutcome::Done(42u32)), Step::Ready(Ok(42u32)));
    assert_eq!(
        accept_step::<u32>(4, IoOutcome::WouldBlock),
        Step::Wait(Interest { fd: 4, event_type: EventType::Readable })
    );
    assert_eq!(
        accept_step::<u32>(4, IoOutcome::Failed("Too many open files (os error 24)".to_string())),
        Step::Ready(Err("error tcp listener accept: Too many open files (os error 24)".to_string()))
    );
}

#[test]
fn bind_outcome_names_failure() {
    assert_eq!(bind_outcome::<u16>(Ok(6379)), Ok(6379));
    assert_eq!(
        bind_outcome::<u16>(Err("Address already in use (os error 98)".to_string())),
        Err("error: tcp listener bind fail,Address already in use (os error 98)".to_string())
    );
}

#[test]
fn bytes_read_reach_the_callers_buffer() {
    let received = match read_step(11, chunk(), IoOutcome::Done(3)) {
        Step::Ready(Ok(bytes)) => bytes,
        other => panic!("unexpected step: {:?}", other),
    };
    let mut caller = vec![7u8; 8];
    let n = fill_read_buffer(&mut caller, &received);
    assert_eq!(n, 3);
    assert_eq!(&caller[..n], b"hi!");
    assert_eq!(&caller[n..], &[0u8; 5]);
}

#[test]
fn waker_slot_hands_out_the_last_parked_waker_once() {
    let mut slot: WakerSlot<u32> = WakerSlot::new();
    assert_eq!(slot.take_waker(), None);
    slot.park(1);
    slot.park(2);
    assert_eq!(slot.take_waker(), Some(2));
    assert_eq!(slot.take_waker(), None);
}

#[test]
fn pending_read_completes_after_wake() {
    let mut el: EventLoop<&str> = EventLoop::new(3);
    let mut slot: WakerSlot<u32> = WakerSlot::new();
    let interest = match read_step(11, chunk(), IoOutcome::WouldBlock) {
        Step::Wait(i) => i,
        other => panic!("unexpected step: {:?}", other),
    };
    slot.park(77);
    let req = el.register_request(interest.fd, interest.event_type);
    el.register(interest.fd, "wake", Ok(())).unwrap();
    assert_eq!(el.callback_for_key(req.event.unwrap().key), Some(&"wake"));
    assert_eq!(slot.take_waker(), Some(77));
    assert_eq!(
        read_step(11, chunk(), IoOutcome::Done(2)),
        Step::Ready(Ok(b"hi".to_vec()))
    );
}

#[test]
fn pending_accept_completes_after_wake() {
    let mut el: EventLoop<&str> = EventLoop::new(3);
    el.register(4, "wake", Ok(())).unwrap();
    let interest = match accept_step::<u8>(4, IoOutcome::WouldBlock) {
        Step::Wait(i) => i,
        other => panic!("unexpected step: {:?}", other),
    };
    let req = el.register_request(interest.fd, interest.event_type);
    el.register(interest.fd, "second wake", Ok(())).unwrap();
    assert_eq!(el.callback_for_key(req.event.unwrap().key), Some(&"wake"));
    assert_eq!(accept_step(4, IoOutcome::Done(9u8)), Step::Ready(Ok(9u8)));
}

#[test]
fn read_chunk_is_zeroed_and_full_size() {
    let c = read_chunk();
    assert_eq!(c.len(), READ_CHUNK);
    assert_eq!(c.len(), 1024);
    assert!(c.iter().all(|b| *b == 0));
}

#[test]
fn finish_read_copies_bytes_or_passes_error() {
    let mut buf = [5u8; 4];
    assert_eq!(finish_read(&mut buf, Ok(b"xy".to_vec())), Ok(2));
    assert_eq!(buf, [b'x', b'y', 0, 0]);
    let mut untouched = [5u8; 4];
    assert_eq!(
        finish_read(&mut untouched, Err("error buf len = 0".to_string())),
        Err("error buf len = 0".to_string())
    );
    assert_eq!(untouched, [5u8; 4]);
}

#[test]
fn read_count_is_between_one_and_chunk_size() {
    let full = match read_step(11, read_chunk(), IoOutcome::Done(READ_CHUNK)) {
        Step::Ready(Ok(bytes)) => bytes,
        other => panic!("unexpected step: {:?}", other),
    };
    let mut big = vec![1u8; 4096];
    assert_eq!(finish_read(&mut big, Ok(full)), Ok(1024));
    let one = match read_step(11, read_chunk(), IoOutcome::Done(1)) {
        Step::Ready(Ok(bytes)) => bytes,
        other => panic!("unexpected step: {:?}", other),
    };
    let mut small = vec![1u8; 3];
    assert_eq!(finish_read(&mut small, Ok(one)), Ok(1));
}
