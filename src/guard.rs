//! The polling guard: the kernel calls that bracket exclusive use of the
//! executor, as sequences the caller performs in order.
use vstd::prelude::*;

verus! {

/// A kernel call made on behalf of the guard.
#[derive(Clone, Copy, PartialEq, Eq, Structural)]
pub enum KernelCall {
    /// Set the kernel's network polling-mode hint.
    SetPollingMode(bool),
    /// Acquire the executor's lock.
    LockExecutor,
    /// Release the executor's lock.
    UnlockExecutor,
    /// Give up the rest of the scheduling quantum.
    Yield,
    /// Run one pass of the executor.
    RunExecutor,
    /// Enable interrupt delivery.
    EnableIrq,
}

/// The part of the kernel's state that the guard touches.
pub struct KernelState {
    pub polling: bool,
    pub irq_enabled: bool,
    pub executor_locked: bool,
}

pub open spec fn apply_call(k: KernelState, c: KernelCall) -> KernelState {
    match c {
        KernelCall::SetPollingMode(p) => KernelState { polling: p, ..k },
        KernelCall::LockExecutor => KernelState { executor_locked: true, ..k },
        KernelCall::UnlockExecutor => KernelState { executor_locked: false, ..k },
        KernelCall::EnableIrq => KernelState { irq_enabled: true, ..k },
        KernelCall::Yield | KernelCall::RunExecutor => k,
    }
}

/// The state after performing `cs` in order from `k`.
pub open spec fn apply_calls(k: KernelState, cs: Seq<KernelCall>) -> KernelState
    decreases cs.len(),
{
    if cs.len() == 0 {
        k
    } else {
        apply_calls(apply_call(k, cs[0]), cs.drop_first())
    }
}

/// The state after interrupts were disabled.
pub open spec fn irq_disabled(k: KernelState) -> KernelState {
    KernelState { irq_enabled: false, ..k }
}

/// Entering: polling mode on, then the executor's lock.
pub open spec fn enter_calls() -> Seq<KernelCall> {
    seq![KernelCall::SetPollingMode(true), KernelCall::LockExecutor]
}

/// Yielding: let other threads at the executor and the kernel, then take
/// the executor back, run it once and turn polling mode on again.
pub open spec fn yield_calls() -> Seq<KernelCall> {
    seq![
        KernelCall::UnlockExecutor,
        KernelCall::SetPollingMode(false),
        KernelCall::Yield,
        KernelCall::LockExecutor,
        KernelCall::RunExecutor,
        KernelCall::SetPollingMode(true),
    ]
}

/// Releasing, once interrupts are disabled and their prior state is known:
/// polling mode off, a final pass of the executor, interrupts back on only
/// if they were on, then the executor's lock goes.
pub open spec fn release_calls(irq_was_enabled: bool) -> Seq<KernelCall> {
    if irq_was_enabled {
        seq![
            KernelCall::SetPollingMode(false),
            KernelCall::RunExecutor,
            KernelCall::EnableIrq,
            KernelCall::UnlockExecutor,
        ]
    } else {
        seq![
            KernelCall::SetPollingMode(false),
            KernelCall::RunExecutor,
            KernelCall::UnlockExecutor,
        ]
    }
}

/// The state after `n` yields from `k`.
pub open spec fn after_yields(k: KernelState, n: nat) -> KernelState
    decreases n,
{
    if n == 0 {
        k
    } else {
        apply_calls(after_yields(k, (n - 1) as nat), yield_calls())
    }
}

/// A scope of exclusive executor use with the kernel's polling mode on.
pub struct PollingGuard {
    active: bool,
}

impl PollingGuard {
    /// Whether the guard holds the executor and has not been released.
    pub closed spec fn is_active(&self) -> bool {
        self.active
    }

    /// Opens a guard; returns it with the calls that enter it.
    pub fn new() -> (r: (PollingGuard, Vec<KernelCall>))
        ensures
            r.0.is_active(),
            r.1@ == enter_calls(),
    {
        (PollingGuard { active: true }, vec![KernelCall::SetPollingMode(true), KernelCall::LockExecutor])
    }

    /// The calls that let other threads make progress and come back.
    pub fn yield_now(&mut self) -> (r: Vec<KernelCall>)
        requires
            old(self).is_active(),
        ensures
            final(self).is_active(),
            r@ == yield_calls(),
    {
        vec![
            KernelCall::UnlockExecutor,
            KernelCall::SetPollingMode(false),
            KernelCall::Yield,
            KernelCall::LockExecutor,
            KernelCall::RunExecutor,
            KernelCall::SetPollingMode(true),
        ]
    }

    /// The calls that end the guard, once interrupts were disabled;
    /// `irq_was_enabled` is the state that disabling reported.
    pub fn release(&mut self, irq_was_enabled: bool) -> (r: Vec<KernelCall>)
        requires
            old(self).is_active(),
        ensures
            !final(self).is_active(),
            r@ == release_calls(irq_was_enabled),
    {
        self.active = false;
        if irq_was_enabled {
            vec![
                KernelCall::SetPollingMode(false),
                KernelCall::RunExecutor,
                KernelCall::EnableIrq,
                KernelCall::UnlockExecutor,
            ]
        } else {
            vec![KernelCall::SetPollingMode(false), KernelCall::RunExecutor, KernelCall::UnlockExecutor]
        }
    }
}

proof fn lemma_yields_keep_state(k: KernelState, n: nat)
    requires
        k.polling,
        k.executor_locked,
    ensures
        after_yields(k, n) == k,
    decreases n,
{
    if n > 0 {
        lemma_yields_keep_state(k, (n - 1) as nat);
        reveal_with_fuel(apply_calls, 7);
    }
}

/// Entering a guard, yielding any number of times and releasing it leaves
/// polling mode off, the executor unlocked, and interrupts as they were
/// when the guard was entered.
pub proof fn lemma_release_restores(k: KernelState, n: nat)
    ensures
        ({
            let entered = apply_calls(k, enter_calls());
            let before_release = after_yields(entered, n);
            let done = apply_calls(
                irq_disabled(before_release),
                release_calls(before_release.irq_enabled),
            );
            &&& !done.polling
            &&& !done.executor_locked
            &&& done.irq_enabled == k.irq_enabled
        }),
{
    reveal_with_fuel(apply_calls, 5);
    let entered = apply_calls(k, enter_calls());
    assert(entered == KernelState { polling: true, executor_locked: true, ..k });
    lemma_yields_keep_state(entered, n);
}

} // verus!
