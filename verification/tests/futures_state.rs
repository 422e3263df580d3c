use yasync_runtime::{Poll, TcpListenerBind, TimerFuture};

#[test]
fn timer_pending_until_fired_then_ready() {
    let mut t: TimerFuture<u32> = TimerFuture::new();
    assert!(!t.is_completed());
    assert_eq!(t.poll(1), Poll::Pending);
    assert_eq!(t.poll(2), Poll::Pending);
    assert_eq!(t.fire(), Some(2));
    assert!(t.is_completed());
    assert_eq!(t.poll(3), Poll::Ready(()));
    assert_eq!(t.poll(4), Poll::Ready(()));
}

#[test]
fn timer_fired_before_poll_wakes_nobody() {
    let mut t: TimerFuture<u32> = TimerFuture::new();
    assert_eq!(t.fire(), None);
    assert_eq!(t.poll(1), Poll::Ready(()));
    assert_eq!(t.fire(), None);
}

#[test]
fn timer_main() {
    // Nine tasks, keys 1 to 9, each waiting on its own timer.
    let mut timers: Vec<TimerFuture<usize>> = Vec::new();
    for i in 1..10 {
        let mut t = TimerFuture::new();
        assert_eq!(t.poll(i), Poll::Pending);
        timers.push(t);
    }
    for (i, t) in timers.iter_mut().enumerate() {
        assert_eq!(t.fire(), Some(i + 1));
        assert_eq!(t.poll(i + 1), Poll::Ready(()));
    }
}

#[test]
fn bind_slot_delivers_result_once() {
    let mut s: TcpListenerBind<Result<u16, String>, u32> = TcpListenerBind::new();
    assert_eq!(s.poll(7), Poll::Pending);
    assert_eq!(s.deliver(Ok(6379)), Some(7));
    assert_eq!(s.poll(8), Poll::Ready(Ok(6379)));
    assert_eq!(s.poll(9), Poll::Pending);
    assert_eq!(s.deliver(Ok(1)), Some(9));
}

#[test]
fn bind_slot_delivery_before_poll() {
    let mut s: TcpListenerBind<Result<u16, String>, u32> = TcpListenerBind::new();
    assert_eq!(s.deliver(Err("in use".to_string())), None);
    assert_eq!(s.poll(1), Poll::Ready(Err("in use".to_string())));
}

#[test]
fn future_tcplistenerbind_main() {
    let mut s: TcpListenerBind<Result<String, String>, &str> = TcpListenerBind::new();
    assert_eq!(s.poll("listener task"), Poll::Pending);
    assert_eq!(s.deliver(Ok("127.0.0.1:6379".to_string())), Some("listener task"));
    assert_eq!(s.poll("listener task"), Poll::Ready(Ok("127.0.0.1:6379".to_string())));
    let mut timers: Vec<TimerFuture<i32>> = Vec::new();
    for i in 1..10 {
        let mut t = TimerFuture::new();
        assert_eq!(t.poll(i), Poll::Pending);
        timers.push(t);
    }
    for t in timers.iter_mut() {
        assert!(t.fire().is_some());
        assert_eq!(t.poll(0), Poll::Ready(()));
    }
}

#[test]
fn unfired_timer_stays_pending_under_many_polls() {
    let mut t: TimerFuture<u32> = TimerFuture::new();
    for w in 0..100 {
        assert_eq!(t.poll(w), Poll::Pending);
        assert!(!t.is_completed());
    }
    assert_eq!(t.fire(), Some(99));
}
