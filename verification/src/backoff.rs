//! The exponential backoff strategy: a stateful delay that grows by a
//! multiplicative factor on every wait, clamped to a cap, until `restart`
//! brings it back to the initial value.

use vstd::prelude::*;

use crate::WaiterError;

verus! {

/// A wait strategy whose delay grows multiplicatively on every wait.
///
/// Durations are whole nanosecond counts. The growth factor is a
/// floating-point multiplier that lives with the embedding shell: each wait
/// step takes the already-scaled magnitude `scaled` (the current delay's
/// nanosecond count multiplied by the factor and truncated to an integer) as
/// an argument, and every contract here holds whatever value is handed in.
/// The step itself commits `min(scaled, cap)` as the next delay and hands
/// back the pre-update delay for the caller to wait out.
///
/// The delay state is absent until `start` sets it to `initial`; `wait`,
/// `async_wait` and `restart` before that fail with `NotStarted`.
#[derive(Clone, Copy)]
pub struct ExponentialBackoffWaiter {
    pub next: Option<u64>,
    pub initial: u64,
    pub cap: u64,
}

impl ExponentialBackoffWaiter {
    /// The delay, in nanoseconds, that `start` and `restart` reset to.
    pub open spec fn spec_initial(&self) -> u64 {
        self.initial
    }

    /// The upper bound, in nanoseconds, that each step clamps to.
    pub open spec fn spec_cap(&self) -> u64 {
        self.cap
    }

    /// The current delay: `None` until `start` has run.
    pub open spec fn spec_current(&self) -> Option<u64> {
        self.next
    }

    /// Whether `start` has initialized the delay state.
    pub open spec fn spec_started(&self) -> bool {
        self.next is Some
    }

    /// The delay one step commits: the scaled magnitude, clamped to the cap.
    pub open spec fn spec_clamped(&self, scaled: u64) -> u64 {
        if scaled > self.cap {
            self.cap
        } else {
            scaled
        }
    }

    /// One wait step from this state with scaled magnitude `scaled`: the
    /// state afterwards, and the delay handed back to be waited out.
    ///
    /// A started state commits `min(scaled, cap)` and hands back the
    /// pre-update delay; an unstarted one is left untouched and fails.
    pub open spec fn spec_step(&self, scaled: u64) -> (ExponentialBackoffWaiter, Result<
        u64,
        WaiterError,
    >) {
        match self.next {
            Some(d) => (
                ExponentialBackoffWaiter {
                    next: Some(self.spec_clamped(scaled)),
                    initial: self.initial,
                    cap: self.cap,
                },
                Ok(d),
            ),
            None => (*self, Err(WaiterError::NotStarted)),
        }
    }

    pub fn new(initial: u64, cap: u64) -> (w: Self)
        ensures
            w.spec_initial() == initial,
            w.spec_cap() == cap,
            !w.spec_started(),
    {
        Self { next: None, initial, cap }
    }

    /// (Re)initializes the delay state to the initial delay.
    pub fn start(&mut self)
        ensures
            final(self).spec_current() == Some(old(self).spec_initial()),
            final(self).spec_initial() == old(self).spec_initial(),
            final(self).spec_cap() == old(self).spec_cap(),
    {
        self.next = Some(self.initial);
    }

    /// Resets the delay back to the initial value. Fails with `NotStarted`,
    /// leaving the state untouched, exactly when `start` never ran.
    pub fn restart(&mut self) -> (r: Result<(), WaiterError>)
        ensures
            old(self).spec_started() ==> {
                &&& r == Ok::<(), WaiterError>(())
                &&& final(self).spec_current() == Some(old(self).spec_initial())
            },
            !old(self).spec_started() ==> {
                &&& r == Err::<(), WaiterError>(WaiterError::NotStarted)
                &&& *final(self) == *old(self)
            },
            final(self).spec_initial() == old(self).spec_initial(),
            final(self).spec_cap() == old(self).spec_cap(),
    {
        match self.next {
            Some(_) => {
                self.next = Some(self.initial);
                Ok(())
            },
            None => Err(WaiterError::NotStarted),
        }
    }

    /// The current delay, for the caller to scale by its growth factor
    /// before handing the product to a wait step.
    pub fn current_delay(&self) -> (d: Option<u64>)
        ensures
            d == self.spec_current(),
    {
        self.next
    }

    /// The step of a blocking wait: commits the clamped scaled magnitude as
    /// the next delay, then hands back the pre-update delay for the caller
    /// to block for. The commit precedes the caller's sleep, so the growth
    /// is kept even if the sleep is abandoned. Fails with `NotStarted`,
    /// leaving the state untouched, exactly when `start` never ran.
    pub fn wait(&mut self, scaled: u64) -> (r: Result<u64, WaiterError>)
        ensures
            *final(self) == old(self).spec_step(scaled).0,
            r == old(self).spec_step(scaled).1,
    {
        match self.next {
            Some(d) => {
                let clamped = if scaled > self.cap {
                    self.cap
                } else {
                    scaled
                };
                self.next = Some(clamped);
                Ok(d)
            },
            None => Err(WaiterError::NotStarted),
        }
    }

    /// The step of a suspending wait: the very same state step as the
    /// blocking form's — the caller arms a suspension timer with the delay
    /// handed back instead of blocking for it. Fails with `NotStarted`,
    /// leaving the state untouched, exactly when `start` never ran.
    pub fn async_wait(&mut self, scaled: u64) -> (r: Result<u64, WaiterError>)
        ensures
            *final(self) == old(self).spec_step(scaled).0,
            r == old(self).spec_step(scaled).1,
    {
        match self.next {
            Some(d) => {
                let clamped = if scaled > self.cap {
                    self.cap
                } else {
                    scaled
                };
                self.next = Some(clamped);
                Ok(d)
            },
            None => Err(WaiterError::NotStarted),
        }
    }
}

/// The state after a run of wait steps with the given scaled magnitudes,
/// first magnitude first.
pub open spec fn spec_run(w: ExponentialBackoffWaiter, scaleds: Seq<u64>) -> ExponentialBackoffWaiter
    decreases scaleds.len(),
{
    if scaleds.len() == 0 {
        w
    } else {
        spec_run(w.spec_step(scaleds[0]).0, scaleds.subrange(1, scaleds.len() as int))
    }
}

/// A wait step taken in a started state never commits a delay above the cap.
pub proof fn lemma_step_is_capped(w: ExponentialBackoffWaiter, scaled: u64)
    requires
        w.spec_started(),
    ensures
        w.spec_step(scaled).0.spec_current() matches Some(d) && d <= w.spec_cap(),
{
}

/// Once the delay has reached the cap, a step whose scaled magnitude is at
/// least the cap keeps it there: with a growth factor of one or more the
/// delay stays at the cap on every further wait.
pub proof fn lemma_cap_is_absorbing(w: ExponentialBackoffWaiter, scaled: u64)
    requires
        w.spec_current() == Some(w.spec_cap()),
        scaled >= w.spec_cap(),
    ensures
        w.spec_step(scaled).0.spec_current() == Some(w.spec_cap()),
        w.spec_step(scaled).1 == Ok::<u64, WaiterError>(w.spec_cap()),
{
}

/// While the delay is within the cap, a step whose scaled magnitude is at
/// least the current delay never shrinks it: with a growth factor of one or
/// more, the delay grows monotonically up to the cap.
pub proof fn lemma_growth_is_monotone(w: ExponentialBackoffWaiter, scaled: u64)
    requires
        w.spec_started(),
        w.spec_current()->0 <= w.spec_cap(),
        scaled >= w.spec_current()->0,
    ensures
        w.spec_step(scaled).0.spec_current()->0 >= w.spec_current()->0,
        w.spec_step(scaled).0.spec_current()->0 <= w.spec_cap(),
{
}

/// The blocking and the suspending wait advance the delay state identically:
/// from identical states and the same scaled magnitude, both commit the same
/// next delay and hand back the same result, so any interleaving of the two
/// forms yields the same delay sequence as either form alone.
pub proof fn lemma_wait_forms_agree(a: ExponentialBackoffWaiter, b: ExponentialBackoffWaiter, scaled: u64)
    requires
        a == b,
    ensures
        a.spec_step(scaled) == b.spec_step(scaled),
{
}

/// However many waits ran since `start`, the state stays started with its
/// configuration intact, so `restart` on it succeeds and, by its contract,
/// brings the next delay back to the configured initial value.
pub proof fn lemma_restart_resets(w: ExponentialBackoffWaiter, scaleds: Seq<u64>)
    requires
        w.spec_started(),
    ensures
        spec_run(w, scaleds).spec_started(),
        spec_run(w, scaleds).spec_initial() == w.spec_initial(),
        spec_run(w, scaleds).spec_cap() == w.spec_cap(),
    decreases scaleds.len(),
{
    if scaleds.len() != 0 {
        lemma_restart_resets(w.spec_step(scaleds[0]).0, scaleds.subrange(1, scaleds.len() as int));
    }
}

} // verus!
