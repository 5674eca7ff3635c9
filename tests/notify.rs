use hermit_net::notify::ThreadNotify;

#[test]
fn new_notifier_has_clear_flags() {
    let n = ThreadNotify::new(42);
    assert_eq!(n.thread(), 42);
    assert!(!n.was_woken());
    assert!(!n.was_unparked());
}

#[test]
fn second_wake_issues_no_kernel_call() {
    let mut n = ThreadNotify::new(3);
    assert!(n.wake_by_ref());
    assert!(n.was_woken());
    assert!(!n.wake_by_ref());
    assert!(n.was_woken());
    assert!(n.was_unparked());
}

#[test]
fn reset_unparked_rearms_the_kernel_call() {
    let mut n = ThreadNotify::new(3);
    assert!(n.wake_by_ref());
    n.reset_unparked();
    assert!(!n.was_unparked());
    assert!(n.was_woken());
    assert!(n.wake_by_ref());
}

#[test]
fn reset_clears_both_flags() {
    let mut n = ThreadNotify::new(9);
    n.wake_by_ref();
    n.reset();
    assert!(!n.was_woken());
    assert!(!n.was_unparked());
    assert_eq!(n.thread(), 9);
}
