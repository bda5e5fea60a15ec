//! Wait strategies for pacing repeated operations.
//!
//! Two strategies are offered: a fixed-interval throttle and a stateful
//! exponential backoff, together with the shared completion state of the
//! suspension timer that backs the non-blocking wait form. The library holds
//! the state machines and their contracts; the actual sleeping, thread
//! spawning and scheduler plumbing are the embedding shell's job.

use vstd::prelude::*;

pub mod backoff;
pub mod throttle;
pub mod timer;

verus! {

/// The one failure a wait strategy reports: a stateful strategy's `wait`,
/// `async_wait` or `restart` ran before `start` initialized its delay state.
#[derive(Clone, Copy, Debug, PartialEq, Eq)]
pub enum WaiterError {
    NotStarted,
}

} // verus!
