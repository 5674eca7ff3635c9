//! The FIFO queue of ready units of work, each named by a `u64` handle.
use vstd::prelude::*;
use concurrent_queue::ConcurrentQueue;

verus! {

#[verifier::external_type_specification]
#[verifier::external_body]
#[verifier::reject_recursive_types(T)]
pub struct ExConcurrentQueue<T>(ConcurrentQueue<T>);

/// The handles held by a queue, front first.
pub uninterp spec fn queued_units(q: ConcurrentQueue<u64>) -> Seq<u64>;

/// Whether the queue is unbounded and not closed, so that a push always succeeds.
pub uninterp spec fn queue_is_open_unbounded(q: ConcurrentQueue<u64>) -> bool;

/// Relies on `ConcurrentQueue::unbounded`: a new queue, empty, open and
/// without a capacity limit.
#[verifier::external_body]
fn new_unbounded_queue() -> (r: ConcurrentQueue<u64>)
    ensures
        queued_units(r) == Seq::<u64>::empty(),
        queue_is_open_unbounded(r),
{
    ConcurrentQueue::unbounded()
}

/// Relies on `ConcurrentQueue::push`: on an unbounded queue that is not
/// closed the item goes to the back and `Ok` comes back.
#[verifier::external_body]
fn queue_push(q: &mut ConcurrentQueue<u64>, unit: u64) -> (pushed: bool)
    requires
        queue_is_open_unbounded(*old(q)),
    ensures
        pushed,
        queued_units(*final(q)) == queued_units(*old(q)).push(unit),
        queue_is_open_unbounded(*final(q)),
{
    q.push(unit).is_ok()
}

/// Relies on `ConcurrentQueue::pop`: the front item is removed and
/// returned; on an empty queue an error comes back and nothing changes.
#[verifier::external_body]
fn queue_pop(q: &mut ConcurrentQueue<u64>) -> (r: Option<u64>)
    ensures
        queue_is_open_unbounded(*final(q)) == queue_is_open_unbounded(*old(q)),
        queued_units(*old(q)).len() == 0 ==> r is None && queued_units(*final(q))
            == queued_units(*old(q)),
        queued_units(*old(q)).len() > 0 ==> r == Some(queued_units(*old(q))[0])
            && queued_units(*final(q)) == queued_units(*old(q)).drop_first(),
{
    q.pop().ok()
}

/// The units that `n` pops hand out from a queue holding `q`, in order.
pub open spec fn popped(q: Seq<u64>, n: nat) -> Seq<u64>
    decreases n,
{
    if n == 0 || q.len() == 0 {
        Seq::empty()
    } else {
        seq![q[0]].add(popped(q.drop_first(), (n - 1) as nat))
    }
}

/// An unbounded multi-producer queue of ready units, consumed in
/// submission order.
pub struct TaskQueue {
    queue: ConcurrentQueue<u64>,
}

impl View for TaskQueue {
    type V = Seq<u64>;

    closed spec fn view(&self) -> Seq<u64> {
        queued_units(self.queue)
    }
}

impl TaskQueue {
    /// Pushes never fail on a well-formed queue.
    pub closed spec fn wf(&self) -> bool {
        queue_is_open_unbounded(self.queue)
    }

    /// An empty queue.
    pub fn new() -> (r: Self)
        ensures
            r.wf(),
            r@ == Seq::<u64>::empty(),
    {
        TaskQueue { queue: new_unbounded_queue() }
    }

    /// Schedules `unit` behind everything already queued.
    pub fn push(&mut self, unit: u64)
        requires
            old(self).wf(),
        ensures
            final(self).wf(),
            final(self)@ == old(self)@.push(unit),
    {
        let _ = queue_push(&mut self.queue, unit);
    }

    /// The next ready unit, or `None` when the queue is empty.
    pub fn pop(&mut self) -> (r: Option<u64>)
        requires
            old(self).wf(),
        ensures
            final(self).wf(),
            old(self)@.len() == 0 ==> r is None && final(self)@ == old(self)@,
            old(self)@.len() > 0 ==> r == Some(old(self)@[0]) && final(self)@ == old(self)@.drop_first(),
    {
        queue_pop(&mut self.queue)
    }
}

/// Draining a queue pops every unit that was in it, in submission order,
/// and a unit pushed behind them is handed out right after them.
pub proof fn lemma_drain_hands_out_all_in_order(q: Seq<u64>, later: u64)
    ensures
        popped(q, q.len()) == q,
        popped(q.push(later), q.len() + 1) == q.push(later),
    decreases q.len(),
{
    if q.len() > 0 {
        lemma_drain_hands_out_all_in_order(q.drop_first(), later);
        assert(q.push(later).drop_first() == q.drop_first().push(later));
        assert(seq![q[0]].add(q.drop_first()) == q);
        assert(seq![q[0]].add(q.drop_first().push(later)) == q.push(later));
    } else {
        assert(popped(seq![later], 1) == seq![later].add(popped(seq![later].drop_first(), 0)));
        assert(seq![later].add(Seq::<u64>::empty()) == seq![later]);
        assert(q.push(later) == seq![later]);
    }
}

} // verus!
