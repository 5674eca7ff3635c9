use hermit_net::queue::TaskQueue;

#[test]
fn queue_is_fifo() {
    let mut q = TaskQueue::new();
    q.push(3);
    q.push(1);
    q.push(2);
    assert_eq!(q.pop(), Some(3));
    q.push(7);
    assert_eq!(q.pop(), Some(1));
    assert_eq!(q.pop(), Some(2));
    assert_eq!(q.pop(), Some(7));
    assert_eq!(q.pop(), None);
}

#[test]
fn empty_queue_pops_none() {
    let mut q = TaskQueue::new();
    assert_eq!(q.pop(), None);
    assert_eq!(q.pop(), None);
}

#[test]
fn drain_hands_out_every_unit() {
    let mut q = TaskQueue::new();
    for i in 0..100u64 {
        q.push(i);
    }
    let mut seen = Vec::new();
    while let Some(u) = q.pop() {
        seen.push(u);
    }
    assert_eq!(seen, (0..100u64).collect::<Vec<_>>());
}
