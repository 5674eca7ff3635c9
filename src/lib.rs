//! Cooperative network executor for a single-address-space kernel: the
//! decision logic of the run loop, the polling guard, the blocking driver,
//! the thread notifier and the per-socket waker bridge, with the ABI result
//! conversions used at the system-call boundary.

pub mod abi;
pub mod block;
pub mod executor;
pub mod guard;
pub mod notify;
pub mod queue;
pub mod waker;
