use hermit_net::waker::{
    AsyncWakerSocket, EventFlags, WakerRegistration, EVENT_NONE, EVENT_RCLOSED, EVENT_READABLE,
    EVENT_WCLOSED, EVENT_WRITABLE,
};

#[test]
fn event_flags_read_once_then_none() {
    let mut s: AsyncWakerSocket<u32> = AsyncWakerSocket::new();
    s.send_event(EventFlags(EVENT_WRITABLE));
    assert!(s.get_event_flags() == EventFlags(EVENT_WRITABLE));
    assert!(s.get_event_flags() == EventFlags(EVENT_NONE));
}

#[test]
fn fresh_socket_has_no_flags() {
    let mut s: AsyncWakerSocket<u32> = AsyncWakerSocket::new();
    assert_eq!(s.get_event_flags().0, EVENT_NONE);
}

#[test]
fn close_without_wakers_hands_back_none() {
    let mut s: AsyncWakerSocket<u32> = AsyncWakerSocket::new();
    let w = s.close();
    assert_eq!(w.send, None);
    assert_eq!(w.recv, None);
}

#[test]
fn close_hands_back_both_wakers_once() {
    let mut s: AsyncWakerSocket<u32> = AsyncWakerSocket::new();
    s.register_exclusive_send_waker(1);
    s.register_exclusive_recv_waker(2);
    let w = s.close();
    assert_eq!(w.send, Some(1));
    assert_eq!(w.recv, Some(2));
    let again = s.close();
    assert_eq!(again.send, None);
    assert_eq!(again.recv, None);
}

#[test]
fn later_registration_replaces_earlier() {
    let mut s: AsyncWakerSocket<u32> = AsyncWakerSocket::new();
    s.register_exclusive_recv_waker(5);
    s.register_exclusive_recv_waker(6);
    let w = s.close();
    assert_eq!(w.recv, Some(6));
}

#[test]
fn readable_event_wakes_receiver_only() {
    let mut s: AsyncWakerSocket<u32> = AsyncWakerSocket::new();
    s.register_exclusive_send_waker(1);
    s.register_exclusive_recv_waker(2);
    let w = s.send_event(EventFlags(EVENT_READABLE));
    assert_eq!(w.recv, Some(2));
    assert_eq!(w.send, None);
    let w = s.close();
    assert_eq!(w.send, Some(1));
    assert_eq!(w.recv, None);
}

#[test]
fn remote_close_wakes_receiver() {
    let mut s: AsyncWakerSocket<u32> = AsyncWakerSocket::new();
    s.register_exclusive_recv_waker(2);
    assert_eq!(s.send_event(EventFlags(EVENT_RCLOSED)).recv, Some(2));
}

#[test]
fn write_events_wake_nobody() {
    // The send side is not woken by write readiness: only "readable" and
    // "remote closed" wake anyone.
    let mut s: AsyncWakerSocket<u32> = AsyncWakerSocket::new();
    s.register_exclusive_send_waker(1);
    s.register_exclusive_recv_waker(2);
    let w = s.send_event(EventFlags(EVENT_WRITABLE | EVENT_WCLOSED));
    assert_eq!(w.send, None);
    assert_eq!(w.recv, None);
}

#[test]
fn new_event_replaces_unread_flags() {
    let mut s: AsyncWakerSocket<u32> = AsyncWakerSocket::new();
    s.send_event(EventFlags(EVENT_READABLE));
    s.send_event(EventFlags(EVENT_WRITABLE));
    assert_eq!(s.get_event_flags().0, EVENT_WRITABLE);
}

#[test]
fn registration_wake_empties_slot() {
    let mut r: WakerRegistration<u8> = WakerRegistration::new();
    assert_eq!(r.wake(), None);
    r.register(4);
    assert_eq!(r.wake(), Some(4));
    assert_eq!(r.wake(), None);
}
