//! The wake/unpark flags of one blocking-capable kernel thread.
use vstd::prelude::*;

verus! {

/// A kernel thread identifier.
pub type Tid = u32;

/// The abstract state of a [`ThreadNotify`].
pub struct NotifyState {
    pub thread: Tid,
    /// A block request is outstanding and a kernel wakeup was already issued for it.
    pub unparked: bool,
    /// A wakeup occurred since the last reset.
    pub woken: bool,
}

/// State after one logical wake: both flags set, thread unchanged.
pub open spec fn woken_state(s: NotifyState) -> NotifyState {
    NotifyState { thread: s.thread, unparked: true, woken: true }
}

/// Whether a logical wake on `s` must issue the kernel wakeup-by-id call.
pub open spec fn wake_issues_kernel_call(s: NotifyState) -> bool {
    !s.unparked
}

/// Wake/unpark flags bound to one kernel thread.
///
/// A wake sets `woken`, and only the first wake since the last
/// `reset`/`reset_unparked` asks for a kernel wakeup, so that many wake
/// sources firing before the thread parks collapse into a single call.
pub struct ThreadNotify {
    thread: Tid,
    unparked: bool,
    woken: bool,
}

impl View for ThreadNotify {
    type V = NotifyState;

    closed spec fn view(&self) -> NotifyState {
        NotifyState { thread: self.thread, unparked: self.unparked, woken: self.woken }
    }
}

impl ThreadNotify {
    /// A notifier for the kernel thread `thread`, with both flags clear.
    pub fn new(thread: Tid) -> (r: Self)
        ensures
            r@ == (NotifyState { thread, unparked: false, woken: false }),
    {
        ThreadNotify { thread, unparked: false, woken: false }
    }

    /// The thread this notifier wakes.
    pub fn thread(&self) -> (r: Tid)
        ensures
            r == self@.thread,
    {
        self.thread
    }

    pub fn was_woken(&self) -> (r: bool)
        ensures
            r == self@.woken,
    {
        self.woken
    }

    pub fn was_unparked(&self) -> (r: bool)
        ensures
            r == self@.unparked,
    {
        self.unparked
    }

    /// Clears the debounce flag after the thread returned from a block.
    pub fn reset_unparked(&mut self)
        ensures
            final(self)@ == (NotifyState { unparked: false, ..old(self)@ }),
    {
        self.unparked = false;
    }

    /// Clears both flags, at the top of each wait iteration.
    pub fn reset(&mut self)
        ensures
            final(self)@ == (NotifyState { unparked: false, woken: false, ..old(self)@ }),
    {
        self.woken = false;
        self.unparked = false;
    }

    /// Records a wakeup. Returns whether the caller must issue the kernel
    /// wakeup-by-id call for `self.thread()`: true only when no wakeup is
    /// outstanding already.
    pub fn wake_by_ref(&mut self) -> (issue_kernel_wakeup: bool)
        ensures
            final(self)@ == woken_state(old(self)@),
            issue_kernel_wakeup == wake_issues_kernel_call(old(self)@),
    {
        self.woken = true;
        let unparked = self.unparked;
        self.unparked = true;
        !unparked
    }
}

/// Two wakes in a row with no block request between them issue at most one
/// kernel wakeup, and both leave `woken` set.
pub proof fn lemma_wake_twice_issues_at_most_one_call(s: NotifyState)
    ensures
        !(wake_issues_kernel_call(s) && wake_issues_kernel_call(woken_state(s))),
        woken_state(s).woken,
        woken_state(woken_state(s)).woken,
        woken_state(woken_state(s)).thread == s.thread,
{
}

} // verus!
