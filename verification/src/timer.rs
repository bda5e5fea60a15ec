//! The suspension timer's completion state: a single-shot signal shared
//! between a background timing thread and whichever task polls it.
//!
//! The library holds the state and its two transitions, `poll` and
//! `complete`. The embedding shell supplies the concurrency around them: it
//! guards a `TimerState` with a lock, spawns the thread that sleeps and then
//! calls `complete`, and invokes the handle that `complete` hands back.

use vstd::prelude::*;

verus! {

/// The shared state of one suspension timer.
///
/// `W` is the scheduler's wake handle, an opaque value the timer stores and
/// hands back but never inspects.
pub struct TimerState<W> {
    pub completed: bool,
    pub waker: Option<W>,
}

impl<W> TimerState<W> {
    /// Whether the sleep has elapsed.
    pub open spec fn spec_completed(&self) -> bool {
        self.completed
    }

    /// The wake handle registered by the most recent pending poll, if any.
    pub open spec fn spec_waker(&self) -> Option<W> {
        self.waker
    }

    /// The state after one poll with handle `h`: a completed timer is left
    /// untouched; a pending one records `h`, displacing any earlier handle.
    pub open spec fn spec_polled(&self, h: W) -> TimerState<W> {
        if self.completed {
            *self
        } else {
            TimerState { completed: false, waker: Some(h) }
        }
    }

    /// The state after the timing thread signals completion.
    pub open spec fn spec_complete_state(&self) -> TimerState<W> {
        TimerState { completed: true, waker: None }
    }

    /// A fresh timer: not yet elapsed, no handle registered.
    pub fn new() -> (s: Self)
        ensures
            !s.spec_completed(),
            s.spec_waker() is None,
    {
        TimerState { completed: false, waker: None }
    }

    /// One poll. Reports ready exactly when the timer has completed; a
    /// pending poll stores the caller's current handle, overwriting any
    /// stale one, so that the wake always goes through the latest handle.
    pub fn poll(&mut self, handle: W) -> (ready: bool)
        ensures
            ready == old(self).spec_completed(),
            *final(self) == old(self).spec_polled(handle),
    {
        if self.completed {
            true
        } else {
            self.waker = Some(handle);
            false
        }
    }

    /// The timing thread's signal: marks the timer completed and hands back
    /// the registered wake handle, if any, clearing it so the wake is
    /// delivered at most once.
    pub fn complete(&mut self) -> (woken: Option<W>)
        ensures
            *final(self) == old(self).spec_complete_state(),
            woken == old(self).spec_waker(),
    {
        self.completed = true;
        self.waker.take()
    }
}

/// The state after a run of polls, first handle first.
pub open spec fn spec_polled_many<W>(s: TimerState<W>, hs: Seq<W>) -> TimerState<W>
    decreases hs.len(),
{
    if hs.len() == 0 {
        s
    } else {
        spec_polled_many(s.spec_polled(hs[0]), hs.subrange(1, hs.len() as int))
    }
}

/// Once a timer reports ready, it reports ready on every later poll: a
/// completed state answers every poll with ready and is left untouched by
/// any run of further polls.
pub proof fn lemma_ready_is_stable<W>(s: TimerState<W>, hs: Seq<W>)
    requires
        s.spec_completed(),
    ensures
        spec_polled_many(s, hs) == s,
    decreases hs.len(),
{
    if hs.len() != 0 {
        assert(s.spec_polled(hs[0]) == s);
        lemma_ready_is_stable(s, hs.subrange(1, hs.len() as int));
    }
}

/// A task that migrates between polls re-registers a fresh handle each time,
/// and each pending poll displaces the stale one: after any run of polls on a
/// not-yet-ready timer, the latest handle and no other is registered, so
/// completion (whose contract hands back exactly the registered handle and
/// clears it) delivers exactly one wake, through the latest handle, and
/// every poll after completion reports ready.
pub proof fn lemma_latest_handle_wins<W>(s: TimerState<W>, hs: Seq<W>)
    requires
        !s.spec_completed(),
        hs.len() > 0,
    ensures
        ({
            let migrated = spec_polled_many(s, hs);
            &&& !migrated.spec_completed()
            &&& migrated.spec_waker() == Some(hs.last())
            &&& migrated.spec_complete_state().spec_completed()
            &&& migrated.spec_complete_state().spec_waker() is None
        }),
    decreases hs.len(),
{
    let rest = hs.subrange(1, hs.len() as int);
    if hs.len() > 1 {
        assert(rest.last() == hs.last());
        lemma_latest_handle_wins(s.spec_polled(hs[0]), rest);
    } else {
        assert(spec_polled_many(s.spec_polled(hs[0]), rest) == s.spec_polled(hs[0]));
    }
}

} // verus!
