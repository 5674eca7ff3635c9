//! The decisions of the executor's run loop, of the polling guard and of
//! `block_on`. Each is a machine from state and event to next state and
//! action; the caller performs the action (drain the queue, step the
//! driver, a kernel call, poll the future) and reports what came of it.
//!
//! Times are milliseconds since an arbitrary origin; durations are milliseconds.
use vstd::prelude::*;

verus! {

/// Where a pass of the run loop stands.
#[derive(Clone, Copy, PartialEq, Eq, Structural)]
pub enum RunPhase {
    Idle,
    DrainBeforeStep,
    Stepping,
    DrainAfterStep,
    AskingProgress,
    AskingDelay,
    FinalDrain,
}

/// What the caller must do next for the run loop.
#[derive(Clone, Copy, PartialEq, Eq, Structural)]
pub enum RunAction {
    /// Run queued units until the queue is empty.
    DrainQueue,
    /// Lock the driver and step it with this time.
    StepDriver(u64),
    /// Lock the driver and ask whether the step produced further progress.
    QueryProgress,
    /// Lock the driver and ask for its recommended idle duration at this time.
    QueryDelay(u64),
    /// The pass is over; this is the driver's recommended idle duration.
    Finish(Option<u64>),
}

/// What came of the last [`RunAction`].
#[derive(Clone, Copy, PartialEq, Eq, Structural)]
pub enum RunEvent {
    Drained,
    Stepped,
    Progress(bool),
    Delay(Option<u64>),
}

/// The abstract state of an [`Executor`].
pub struct RunState {
    pub phase: RunPhase,
    /// The time captured at the start of the pass.
    pub now: u64,
    /// The delay reported by the driver in this pass.
    pub delay: Option<u64>,
}

/// Whether `ev` answers the action that `phase` waits on.
pub open spec fn run_expects(phase: RunPhase, ev: RunEvent) -> bool {
    match phase {
        RunPhase::DrainBeforeStep | RunPhase::DrainAfterStep | RunPhase::FinalDrain => ev
            == RunEvent::Drained,
        RunPhase::Stepping => ev == RunEvent::Stepped,
        RunPhase::AskingProgress => ev is Progress,
        RunPhase::AskingDelay => ev is Delay,
        RunPhase::Idle => false,
    }
}

/// The pass that starts at time `now`: drain the queue first, so that every
/// unit registers its waker before the driver is stepped.
pub open spec fn run_start(now: u64) -> (RunState, RunAction) {
    (RunState { phase: RunPhase::DrainBeforeStep, now, delay: None }, RunAction::DrainQueue)
}

/// One transition of the run loop.
pub open spec fn run_next(s: RunState, ev: RunEvent) -> (RunState, RunAction) {
    match (s.phase, ev) {
        (RunPhase::DrainBeforeStep, _) => (
            RunState { phase: RunPhase::Stepping, ..s },
            RunAction::StepDriver(s.now),
        ),
        (RunPhase::Stepping, _) => (
            RunState { phase: RunPhase::DrainAfterStep, ..s },
            RunAction::DrainQueue,
        ),
        (RunPhase::DrainAfterStep, _) => (
            RunState { phase: RunPhase::AskingProgress, ..s },
            RunAction::QueryProgress,
        ),
        (RunPhase::AskingProgress, RunEvent::Progress(true)) => (
            RunState { phase: RunPhase::Stepping, ..s },
            RunAction::StepDriver(s.now),
        ),
        (RunPhase::AskingProgress, _) => (
            RunState { phase: RunPhase::AskingDelay, ..s },
            RunAction::QueryDelay(s.now),
        ),
        (RunPhase::AskingDelay, RunEvent::Delay(d)) => (
            RunState { phase: RunPhase::FinalDrain, delay: d, ..s },
            RunAction::DrainQueue,
        ),
        (RunPhase::FinalDrain, _) => (
            RunState { phase: RunPhase::Idle, ..s },
            RunAction::Finish(s.delay),
        ),
        _ => (s, RunAction::Finish(s.delay)),
    }
}

/// The executor's run loop: drains the task queue, steps the driver until it
/// reports no further progress, and finishes with the driver's recommended
/// idle duration. The driver is stepped and queried in separate actions, so
/// its lock is never held while units run.
pub struct Executor {
    phase: RunPhase,
    now: u64,
    delay: Option<u64>,
}

impl View for Executor {
    type V = RunState;

    closed spec fn view(&self) -> RunState {
        RunState { phase: self.phase, now: self.now, delay: self.delay }
    }
}

impl Executor {
    /// An executor between passes.
    pub fn new() -> (r: Self)
        ensures
            r@.phase == RunPhase::Idle,
    {
        Executor { phase: RunPhase::Idle, now: 0, delay: None }
    }

    /// Whether no pass is under way.
    pub fn is_idle(&self) -> (r: bool)
        ensures
            r == (self@.phase == RunPhase::Idle),
    {
        self.phase == RunPhase::Idle
    }

    /// Starts a pass at time `now`.
    pub fn run(&mut self, now: u64) -> (r: RunAction)
        requires
            old(self)@.phase == RunPhase::Idle,
        ensures
            (final(self)@, r) == run_start(now),
    {
        self.phase = RunPhase::DrainBeforeStep;
        self.now = now;
        self.delay = None;
        RunAction::DrainQueue
    }

    /// Continues the pass with what came of the last action.
    pub fn resume(&mut self, ev: RunEvent) -> (r: RunAction)
        requires
            run_expects(old(self)@.phase, ev),
        ensures
            (final(self)@, r) == run_next(old(self)@, ev),
    {
        match self.phase {
            RunPhase::DrainBeforeStep => {
                self.phase = RunPhase::Stepping;
                RunAction::StepDriver(self.now)
            },
            RunPhase::Stepping => {
                self.phase = RunPhase::DrainAfterStep;
                RunAction::DrainQueue
            },
            RunPhase::DrainAfterStep => {
                self.phase = RunPhase::AskingProgress;
                RunAction::QueryProgress
            },
            RunPhase::AskingProgress => {
                if ev == RunEvent::Progress(true) {
                    self.phase = RunPhase::Stepping;
                    RunAction::StepDriver(self.now)
                } else {
                    self.phase = RunPhase::AskingDelay;
                    RunAction::QueryDelay(self.now)
                }
            },
            RunPhase::AskingDelay => {
                if let RunEvent::Delay(d) = ev {
                    self.phase = RunPhase::FinalDrain;
                    self.delay = d;
                }
                RunAction::DrainQueue
            },
            RunPhase::FinalDrain => {
                self.phase = RunPhase::Idle;
                RunAction::Finish(self.delay)
            },
            RunPhase::Idle => RunAction::Finish(self.delay),
        }
    }
}

/// A pass over a quiescent driver (no further progress after the step)
/// steps the driver exactly once, at the captured time, and finishes with
/// the delay the driver reported, unchanged.
pub proof fn lemma_quiescent_pass_steps_once(now: u64, d: Option<u64>)
    ensures
        ({
            let (s0, a0) = run_start(now);
            let (s1, a1) = run_next(s0, RunEvent::Drained);
            let (s2, a2) = run_next(s1, RunEvent::Stepped);
            let (s3, a3) = run_next(s2, RunEvent::Drained);
            let (s4, a4) = run_next(s3, RunEvent::Progress(false));
            let (s5, a5) = run_next(s4, RunEvent::Delay(d));
            let (s6, a6) = run_next(s5, RunEvent::Drained);
            &&& a0 == RunAction::DrainQueue
            &&& a1 == RunAction::StepDriver(now)
            &&& a2 == RunAction::DrainQueue
            &&& a3 == RunAction::QueryProgress
            &&& a4 == RunAction::QueryDelay(now)
            &&& a5 == RunAction::DrainQueue
            &&& a6 == RunAction::Finish(d)
            &&& s6.phase == RunPhase::Idle
        }),
{
}

/// A pass whose driver keeps reporting progress re-steps it at the same
/// captured time, after draining the units the step woke.
pub proof fn lemma_progress_resteps_at_same_time(s: RunState)
    requires
        s.phase == RunPhase::AskingProgress,
    ensures
        run_next(s, RunEvent::Progress(true)).1 == RunAction::StepDriver(s.now),
        run_next(run_next(s, RunEvent::Progress(true)).0, RunEvent::Stepped).1
            == RunAction::DrainQueue,
{
}

/// Every pass opens with a drain of the task queue, and finishes only on the
/// event that answers its final drain, so units queued before the driver's
/// delay is known are run before the pass returns.
pub proof fn lemma_pass_drains_at_both_ends(now: u64, s: RunState, ev: RunEvent)
    requires
        run_expects(s.phase, ev),
    ensures
        run_start(now).1 == RunAction::DrainQueue,
        run_next(s, ev).1 is Finish ==> s.phase == RunPhase::FinalDrain && ev == RunEvent::Drained,
{
}

} // verus!
