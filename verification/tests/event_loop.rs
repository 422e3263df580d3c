use yasync_runtime::{CtlOp, CtlRequest, EpollEvent, EventLoop, EventType, MAX_EVENTS, WAIT_TIMEOUT_MS};

#[test]
fn new_loop_has_no_callbacks() {
    let el: EventLoop<u32> = EventLoop::new(9);
    assert_eq!(el.epoll_fd(), 9);
    assert!(!el.is_registered(3));
    assert!(el.callback_for_key(3).is_none());
}

#[test]
fn first_registration_adds_with_oneshot_read_interest() {
    let el: EventLoop<u32> = EventLoop::new(9);
    let req = el.register_request(5, EventType::Readable);
    assert_eq!(
        req,
        CtlRequest {
            op: CtlOp::Add,
            fd: 5,
            event: Some(EpollEvent { events: 0x4000_0001, key: 5 }),
        }
    );
}

#[test]
fn successful_add_stores_callback_and_dispatches_it() {
    let mut el: EventLoop<u32> = EventLoop::new(9);
    let req = el.register_request(5, EventType::Readable);
    assert_eq!(el.register(5, 100, Ok(())), Ok(()));
    assert!(el.is_registered(5));
    let key = req.event.unwrap().key;
    assert_eq!(el.callback_for_key(key), Some(&100));
}

#[test]
fn second_registration_modifies_and_keeps_first_callback() {
    let mut el: EventLoop<u32> = EventLoop::new(9);
    el.register(5, 100, Ok(())).unwrap();
    let req = el.register_request(5, EventType::Writable);
    assert_eq!(req.op, CtlOp::Modify);
    assert_eq!(req.event, Some(EpollEvent { events: 0x4000_0004, key: 5 }));
    assert_eq!(el.register(5, 200, Ok(())), Ok(()));
    assert_eq!(el.callback_for_key(5), Some(&100));
}

#[test]
fn failed_add_reports_and_stores_nothing() {
    let mut el: EventLoop<u32> = EventLoop::new(9);
    let r = el.register(5, 100, Err("Bad file descriptor (os error 9)".to_string()));
    assert_eq!(
        r,
        Err("error: epoll_ctl_add:Bad file descriptor (os error 9)".to_string())
    );
    assert!(!el.is_registered(5));
    assert_eq!(el.register_request(5, EventType::Readable).op, CtlOp::Add);
}

#[test]
fn failed_modify_reports_and_keeps_callback() {
    let mut el: EventLoop<u32> = EventLoop::new(9);
    el.register(5, 100, Ok(())).unwrap();
    let r = el.register(5, 200, Err("boom".to_string()));
    assert_eq!(r, Err("error: epoll_ctl_mod:boom".to_string()));
    assert_eq!(el.callback_for_key(5), Some(&100));
}

#[test]
fn unregister_deletes_and_forgets_callback() {
    let mut el: EventLoop<u32> = EventLoop::new(9);
    el.register(5, 100, Ok(())).unwrap();
    el.register(6, 600, Ok(())).unwrap();
    assert_eq!(
        el.unregister_request(5),
        CtlRequest { op: CtlOp::Delete, fd: 5, event: None }
    );
    assert_eq!(el.unregister(5, Ok(())), Ok(()));
    assert!(el.callback_for_key(5).is_none());
    assert_eq!(el.callback_for_key(6), Some(&600));
    assert_eq!(el.register_request(5, EventType::Readable).op, CtlOp::Add);
}

#[test]
fn failed_unregister_reports_and_keeps_callback() {
    let mut el: EventLoop<u32> = EventLoop::new(9);
    el.register(5, 100, Ok(())).unwrap();
    let r = el.unregister(5, Err("No such file or directory (os error 2)".to_string()));
    assert_eq!(
        r,
        Err("error: epoll_ctl_delete:No such file or directory (os error 2)".to_string())
    );
    assert_eq!(el.callback_for_key(5), Some(&100));
}

#[test]
fn negative_descriptor_is_found_from_its_key() {
    let mut el: EventLoop<u32> = EventLoop::new(9);
    let req = el.register_request(-3, EventType::Readable);
    el.register(-3, 33, Ok(())).unwrap();
    let key = req.event.unwrap().key;
    assert_eq!(key, (-3i32) as u64);
    assert_eq!(el.callback_for_key(key), Some(&33));
}

#[test]
fn wait_outcome_passes_keys_and_names_failure() {
    assert_eq!(
        EventLoop::<u32>::wait_outcome(Ok(vec![4, 5])),
        Ok(vec![4u64, 5u64])
    );
    assert_eq!(
        EventLoop::<u32>::wait_outcome(Err("Interrupted system call (os error 4)".to_string())),
        Err("error: epoll_ctl_wait:Interrupted system call (os error 4)".to_string())
    );
}

#[test]
fn wait_limits() {
    assert_eq!(MAX_EVENTS, 1024);
    assert_eq!(WAIT_TIMEOUT_MS, 1000);
}
