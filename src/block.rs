//! The adaptive spin-then-park decisions of `block_on`, which drives one
//! future to completion on the calling kernel thread.
//!
//! Times are milliseconds since an arbitrary origin; durations are milliseconds.
use vstd::prelude::*;

verus! {

/// How long a wait must have lasted before the thread may park.
pub const PARK_AFTER_MS: u64 = 100;

/// A recommended driver delay up to this many milliseconds keeps the
/// thread spinning instead of parking.
pub const SPIN_DELAY_LIMIT_MS: u64 = 1000;

/// The kernel call that parks the calling thread.
#[derive(Clone, Copy, PartialEq, Eq, Structural)]
pub enum BlockCall {
    /// Until woken.
    Indefinite,
    /// Until woken or this many milliseconds have passed.
    WithTimeout(u64),
}

/// What the caller must do next.
#[derive(Clone, Copy, PartialEq, Eq, Structural)]
pub enum BlockAction {
    /// Reset the thread's notifier and poll the future.
    ResetAndPoll,
    /// The future is ready: return its value.
    ReturnReady,
    /// Fail with the timeout error.
    TimedOut,
    /// Run the executor once, then report the time and the `woken` flag.
    RunThenCheck,
    /// Run the executor once, then report its delay and the notifier's flags.
    RunForDelay,
    /// Report the time and the `woken` flag again.
    Check,
    /// Make this block call, clear the unpark flag, yield the polling guard,
    /// run the executor once, then report the time and the `woken` flag.
    Park(BlockCall),
}

/// What came of the last [`BlockAction`].
#[derive(Clone, Copy, PartialEq, Eq, Structural)]
pub enum BlockEvent {
    Polled { ready: bool, now: u64 },
    Checked { now: u64, woken: bool },
    Advised { delay: Option<u64>, woken: bool, unparked: bool },
}

#[derive(Clone, Copy, PartialEq, Eq, Structural)]
pub enum BlockPhase {
    Polling,
    Waiting,
    Deciding,
    Done,
}

/// The abstract state of a [`BlockOn`].
pub struct BlockState {
    pub phase: BlockPhase,
    pub start: u64,
    pub timeout: Option<u64>,
    /// When the future last returned pending.
    pub pending_start: u64,
    /// The time of the last check.
    pub now: u64,
}

/// Whether the timeout, measured from `start`, has elapsed at `now`.
pub open spec fn deadline_passed(start: u64, timeout: Option<u64>, now: u64) -> bool {
    match timeout {
        Some(d) => now >= start + d,
        None => false,
    }
}

/// Whether a wait is sustained and the driver has no near-term timer, so
/// that the thread parks rather than spins; and with which call.
pub open spec fn park_decision(
    pending_start: u64,
    now: u64,
    delay: Option<u64>,
    woken: bool,
    unparked: bool,
) -> Option<BlockCall> {
    if now >= pending_start + PARK_AFTER_MS && !woken && (delay is None || delay->0
        > SPIN_DELAY_LIMIT_MS) && !unparked {
        match delay {
            Some(d) => Some(BlockCall::WithTimeout(d)),
            None => Some(BlockCall::Indefinite),
        }
    } else {
        None
    }
}

pub open spec fn block_expects(phase: BlockPhase, ev: BlockEvent) -> bool {
    match phase {
        BlockPhase::Polling => ev is Polled,
        BlockPhase::Waiting => ev is Checked,
        BlockPhase::Deciding => ev is Advised,
        BlockPhase::Done => false,
    }
}

/// One transition of `block_on`.
pub open spec fn block_next(s: BlockState, ev: BlockEvent) -> (BlockState, BlockAction) {
    match ev {
        BlockEvent::Polled { ready, now } => if ready {
            (BlockState { phase: BlockPhase::Done, ..s }, BlockAction::ReturnReady)
        } else {
            (
                BlockState { phase: BlockPhase::Waiting, pending_start: now, now, ..s },
                BlockAction::RunThenCheck,
            )
        },
        BlockEvent::Checked { now, woken } => if woken {
            (BlockState { phase: BlockPhase::Polling, now, ..s }, BlockAction::ResetAndPoll)
        } else if deadline_passed(s.start, s.timeout, now) {
            (BlockState { phase: BlockPhase::Done, now, ..s }, BlockAction::TimedOut)
        } else {
            (BlockState { phase: BlockPhase::Deciding, now, ..s }, BlockAction::RunForDelay)
        },
        BlockEvent::Advised { delay, woken, unparked } => match park_decision(
            s.pending_start,
            s.now,
            delay,
            woken,
            unparked,
        ) {
            Some(c) => (BlockState { phase: BlockPhase::Waiting, ..s }, BlockAction::Park(c)),
            None => (BlockState { phase: BlockPhase::Waiting, ..s }, BlockAction::Check),
        },
    }
}

/// Whether the timeout has elapsed at `now`, free of overflow.
pub fn timed_out(start: u64, timeout: Option<u64>, now: u64) -> (r: bool)
    ensures
        r == deadline_passed(start, timeout, now),
{
    match timeout {
        Some(d) => now >= start && now - start >= d,
        None => false,
    }
}

/// Whether to park, and with which call.
pub fn decide_park(
    pending_start: u64,
    now: u64,
    delay: Option<u64>,
    woken: bool,
    unparked: bool,
) -> (r: Option<BlockCall>)
    ensures
        r == park_decision(pending_start, now, delay, woken, unparked),
{
    let sustained = now >= pending_start && now - pending_start >= PARK_AFTER_MS;
    let far = match delay {
        Some(d) => d > SPIN_DELAY_LIMIT_MS,
        None => true,
    };
    if sustained && !woken && far && !unparked {
        match delay {
            Some(d) => Some(BlockCall::WithTimeout(d)),
            None => Some(BlockCall::Indefinite),
        }
    } else {
        None
    }
}

/// The state of one `block_on` call.
pub struct BlockOn {
    phase: BlockPhase,
    start: u64,
    timeout: Option<u64>,
    pending_start: u64,
    now: u64,
}

impl View for BlockOn {
    type V = BlockState;

    closed spec fn view(&self) -> BlockState {
        BlockState {
            phase: self.phase,
            start: self.start,
            timeout: self.timeout,
            pending_start: self.pending_start,
            now: self.now,
        }
    }
}

impl BlockOn {
    /// A `block_on` entered at `start`, failing once `timeout` has elapsed
    /// from there; the first action is [`BlockAction::ResetAndPoll`].
    pub fn new(start: u64, timeout: Option<u64>) -> (r: Self)
        ensures
            r@ == (BlockState {
                phase: BlockPhase::Polling,
                start,
                timeout,
                pending_start: start,
                now: start,
            }),
    {
        BlockOn { phase: BlockPhase::Polling, start, timeout, pending_start: start, now: start }
    }

    /// Whether the call has returned or failed.
    pub fn is_done(&self) -> (r: bool)
        ensures
            r == (self@.phase == BlockPhase::Done),
    {
        self.phase == BlockPhase::Done
    }

    /// Continues with what came of the last action.
    pub fn step(&mut self, ev: BlockEvent) -> (r: BlockAction)
        requires
            block_expects(old(self)@.phase, ev),
        ensures
            (final(self)@, r) == block_next(old(self)@, ev),
    {
        match ev {
            BlockEvent::Polled { ready, now } => {
                if ready {
                    self.phase = BlockPhase::Done;
                    BlockAction::ReturnReady
                } else {
                    self.phase = BlockPhase::Waiting;
                    self.pending_start = now;
                    self.now = now;
                    BlockAction::RunThenCheck
                }
            },
            BlockEvent::Checked { now, woken } => {
                self.now = now;
                if woken {
                    self.phase = BlockPhase::Polling;
                    BlockAction::ResetAndPoll
                } else if timed_out(self.start, self.timeout, now) {
                    self.phase = BlockPhase::Done;
                    BlockAction::TimedOut
                } else {
                    self.phase = BlockPhase::Deciding;
                    BlockAction::RunForDelay
                }
            },
            BlockEvent::Advised { delay, woken, unparked } => {
                self.phase = BlockPhase::Waiting;
                match decide_park(self.pending_start, self.now, delay, woken, unparked) {
                    Some(c) => BlockAction::Park(c),
                    None => BlockAction::Check,
                }
            },
        }
    }
}

/// `block_on` fails with the timeout exactly when a check finds the future
/// pending, no wakeup observed and the timeout elapsed; a future found ready
/// gives its value whatever the time, the deadline instant included.
pub proof fn lemma_timeout_only_when_elapsed(s: BlockState, ev: BlockEvent)
    ensures
        (block_next(s, ev).1 == BlockAction::TimedOut) <==> (ev matches BlockEvent::Checked {
            now,
            woken,
        } && !woken && deadline_passed(s.start, s.timeout, now)),
        (ev matches BlockEvent::Polled { ready, now } && ready) ==> block_next(s, ev).1
            == BlockAction::ReturnReady,
        s.timeout is None ==> block_next(s, ev).1 != BlockAction::TimedOut,
{
}

} // verus!
