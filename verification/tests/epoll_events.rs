use yasync_runtime::{fd_of, key_of, CtlOp, Event, EventType};

#[test]
fn readable_flags_are_in_and_oneshot() {
    assert_eq!(EventType::Readable.to_flags(), 0x4000_0001u32);
    assert_eq!(
        EventType::Readable.to_flags(),
        (libc::EPOLLIN | libc::EPOLLONESHOT) as u32
    );
}

#[test]
fn writable_flags_are_out_and_oneshot() {
    assert_eq!(EventType::Writable.to_flags(), 0x4000_0004u32);
    assert_eq!(
        EventType::Writable.to_flags(),
        (libc::EPOLLOUT | libc::EPOLLONESHOT) as u32
    );
}

#[test]
fn ctl_codes_match_libc() {
    assert_eq!(CtlOp::Add.code(), libc::EPOLL_CTL_ADD);
    assert_eq!(CtlOp::Modify.code(), libc::EPOLL_CTL_MOD);
    assert_eq!(CtlOp::Delete.code(), libc::EPOLL_CTL_DEL);
    assert_eq!(CtlOp::Add.code(), 1);
    assert_eq!(CtlOp::Modify.code(), 3);
    assert_eq!(CtlOp::Delete.code(), 2);
}

#[test]
fn key_round_trip_for_ordinary_and_negative_descriptors() {
    assert_eq!(key_of(7), 7u64);
    assert_eq!(fd_of(key_of(7)), 7);
    assert_eq!(key_of(-1), u64::MAX);
    assert_eq!(fd_of(key_of(-1)), -1);
    assert_eq!(fd_of(key_of(i32::MIN)), i32::MIN);
    assert_eq!(fd_of(0x1_0000_0005u64), 5);
}

#[test]
fn event_holds_descriptor_and_kind() {
    let e = Event { fd: 4, event_type: EventType::Writable };
    let copy = e;
    assert_eq!(copy.fd, 4);
    assert_eq!(copy.event_type, EventType::Writable);
}

#[test]
fn cloexec_is_added_to_descriptor_flags() {
    assert_eq!(yasync_runtime::with_cloexec(0), libc::FD_CLOEXEC);
    assert_eq!(yasync_runtime::with_cloexec(6), 6 | libc::FD_CLOEXEC);
    let r = yasync_runtime::with_cloexec(6);
    assert!(r == 7 || r == 6 | 0x0100_0000);
}
