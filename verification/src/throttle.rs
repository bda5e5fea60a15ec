//! The fixed-interval throttle strategy: every wait pauses for the same
//! constant duration.

use vstd::prelude::*;

use crate::WaiterError;

verus! {

/// A wait strategy that pauses for a fixed duration on every call.
///
/// Durations are whole nanosecond counts. The strategy has no mutable state:
/// every wait is independent, and `start` / `restart` are no-ops.
///
/// The library computes each wait's delay; the embedding shell does the
/// actual blocking or timer arming with the delay handed back.
#[derive(Clone, Copy)]
pub struct ThrottleWaiter {
    pub throttle: u64,
}

impl ThrottleWaiter {
    /// The fixed delay, in nanoseconds.
    pub open spec fn spec_duration(&self) -> u64 {
        self.throttle
    }

    pub fn new(throttle: u64) -> (w: Self)
        ensures
            w.spec_duration() == throttle,
    {
        Self { throttle }
    }

    /// No-op: a fixed throttle has no delay state to initialize.
    pub fn start(&mut self)
        ensures
            *final(self) == *old(self),
    {
    }

    /// No-op that always succeeds: there is no delay state to reset.
    pub fn restart(&mut self) -> (r: Result<(), WaiterError>)
        ensures
            r == Ok::<(), WaiterError>(()),
            *final(self) == *old(self),
    {
        Ok(())
    }

    /// The step of a blocking wait: always succeeds, and the delay the caller
    /// must then block for is exactly the fixed duration.
    pub fn wait(&self) -> (r: Result<u64, WaiterError>)
        ensures
            r == Ok::<u64, WaiterError>(self.spec_duration()),
    {
        Ok(self.throttle)
    }

    /// The step of a suspending wait: always succeeds, and the delay the
    /// caller must arm its suspension timer with is exactly the fixed
    /// duration, the same as the blocking form's.
    pub fn async_wait(&self) -> (r: Result<u64, WaiterError>)
        ensures
            r == Ok::<u64, WaiterError>(self.spec_duration()),
    {
        Ok(self.throttle)
    }
}

} // verus!
