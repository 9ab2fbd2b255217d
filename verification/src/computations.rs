//! Computations with verified polling behaviour.
//!
//! These give the [`Computation`](crate::Computation) trait verified
//! implementations inside the crate, and let callers exercise the blocking
//! drive loop with exactly known poll counts.

use vstd::prelude::*;

use crate::Computation;
use crate::ThreadContext;
use crate::enter;

verus! {

/// A computation that reports "not ready" an exact number of times and then
/// completes with the total number of polls it received.
///
/// One built with `CountedComputation::new(k)` reports "not ready" exactly
/// `k` times and then completes with `k + 1`; since its final value counts
/// its polls, the value the drive loop returns shows how often the loop
/// polled it.
pub struct CountedComputation {
    remaining: u64,
    polls: u64,
}

impl CountedComputation {
    /// A computation that will report "not ready" exactly `remaining` times
    /// and then complete with `remaining + 1`, the number of polls taken.
    pub fn new(remaining: u64) -> (c: CountedComputation)
        requires
            remaining < u64::MAX,
        ensures
            c.wf(),
            c.pending() == remaining,
            c.value() == remaining + 1,
            c.polled() == 0,
    {
        CountedComputation { remaining, polls: 0 }
    }
}

impl Computation for CountedComputation {
    type Output = u64;

    /// The total poll count must stay representable.
    closed spec fn wf(&self) -> bool {
        self.polls + self.remaining < u64::MAX
    }

    closed spec fn pending(&self) -> nat {
        self.remaining as nat
    }

    /// The number of polls it will have received when it completes.
    closed spec fn value(&self) -> u64 {
        (self.polls + self.remaining + 1) as u64
    }

    closed spec fn polled(&self) -> nat {
        self.polls as nat
    }

    fn poll(&mut self, ctx: &mut ThreadContext) -> (r: Option<u64>) {
        self.polls = self.polls + 1;
        if self.remaining > 0 {
            self.remaining = self.remaining - 1;
            // Progress is possible at once: signal the handle before
            // reporting "not ready", as a wake from the computation's own
            // machinery would.
            let _ = ctx.notify.wake_by_ref_raw();
            None
        } else {
            Some(self.polls)
        }
    }
}

/// A computation whose one poll attempts to start a nested blocking drive
/// loop on the same thread, and completes with whether that attempt was
/// rejected.  Inside a drive loop the thread is marked as entered, so the
/// nested attempt always fails and the computation always completes with
/// `true`.
pub struct ReentrantProbe {
    polls: u64,
}

impl ReentrantProbe {
    /// A fresh probe, ready to be driven.
    pub fn new() -> (c: ReentrantProbe)
        ensures
            c.wf(),
            c.pending() == 0,
            c.value() == true,
            c.polled() == 0,
    {
        ReentrantProbe { polls: 0 }
    }
}

impl Computation for ReentrantProbe {
    type Output = bool;

    /// The poll count must stay representable.
    closed spec fn wf(&self) -> bool {
        self.polls < u64::MAX
    }

    closed spec fn pending(&self) -> nat {
        0
    }

    closed spec fn value(&self) -> bool {
        true
    }

    closed spec fn polled(&self) -> nat {
        self.polls as nat
    }

    fn poll(&mut self, ctx: &mut ThreadContext) -> (r: Option<bool>) {
        self.polls = self.polls + 1;
        let nested = enter(ctx);
        let rejected = match nested {
            Result::Err(_) => true,
            Result::Ok(_) => vstd::pervasive::unreached(),
        };
        Some(rejected)
    }
}

} // verus!


