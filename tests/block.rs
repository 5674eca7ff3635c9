use hermit_net::block::{decide_park, timed_out, BlockAction, BlockCall, BlockEvent, BlockOn};

#[test]
fn ready_future_returns_at_once() {
    let mut b = BlockOn::new(0, Some(10));
    assert!(b.step(BlockEvent::Polled { ready: true, now: 0 }) == BlockAction::ReturnReady);
    assert!(b.is_done());
}

#[test]
fn ready_at_deadline_returns_value() {
    let mut b = BlockOn::new(100, Some(50));
    assert!(b.step(BlockEvent::Polled { ready: false, now: 100 }) == BlockAction::RunThenCheck);
    assert!(b.step(BlockEvent::Checked { now: 120, woken: true }) == BlockAction::ResetAndPoll);
    assert!(b.step(BlockEvent::Polled { ready: true, now: 150 }) == BlockAction::ReturnReady);
}

#[test]
fn pending_past_deadline_times_out() {
    let mut b = BlockOn::new(100, Some(50));
    b.step(BlockEvent::Polled { ready: false, now: 100 });
    assert!(b.step(BlockEvent::Checked { now: 149, woken: false }) == BlockAction::RunForDelay);
    assert!(b.step(BlockEvent::Advised { delay: Some(5), woken: false, unparked: false })
        == BlockAction::Check);
    assert!(b.step(BlockEvent::Checked { now: 150, woken: false }) == BlockAction::TimedOut);
    assert!(b.is_done());
}

#[test]
fn woken_check_does_not_time_out() {
    let mut b = BlockOn::new(0, Some(10));
    b.step(BlockEvent::Polled { ready: false, now: 0 });
    assert!(b.step(BlockEvent::Checked { now: 1000, woken: true }) == BlockAction::ResetAndPoll);
}

#[test]
fn no_timeout_never_times_out() {
    assert!(!timed_out(0, None, u64::MAX));
    let mut b = BlockOn::new(0, None);
    b.step(BlockEvent::Polled { ready: false, now: 0 });
    assert!(b.step(BlockEvent::Checked { now: u64::MAX, woken: false }) == BlockAction::RunForDelay);
}

#[test]
fn timed_out_boundary() {
    assert!(!timed_out(10, Some(5), 14));
    assert!(timed_out(10, Some(5), 15));
    assert!(!timed_out(10, Some(5), 3));
    assert!(!timed_out(u64::MAX, Some(u64::MAX), u64::MAX));
}

#[test]
fn parks_only_after_sustained_wait() {
    assert!(decide_park(0, 99, None, false, false).is_none());
    assert!(decide_park(0, 100, None, false, false) == Some(BlockCall::Indefinite));
    assert!(decide_park(0, 100, Some(1000), false, false).is_none());
    assert!(decide_park(0, 100, Some(1001), false, false) == Some(BlockCall::WithTimeout(1001)));
    assert!(decide_park(0, 500, None, true, false).is_none());
    assert!(decide_park(0, 500, None, false, true).is_none());
}

#[test]
fn sustained_wait_parks_the_thread() {
    let mut b = BlockOn::new(0, None);
    b.step(BlockEvent::Polled { ready: false, now: 10 });
    assert!(b.step(BlockEvent::Checked { now: 200, woken: false }) == BlockAction::RunForDelay);
    assert!(b.step(BlockEvent::Advised { delay: Some(5000), woken: false, unparked: false })
        == BlockAction::Park(BlockCall::WithTimeout(5000)));
    assert!(b.step(BlockEvent::Checked { now: 5200, woken: true }) == BlockAction::ResetAndPoll);
}
