//! The per-thread wake handle.
//!
//! A `ThreadNotify` stands for "a thread waiting for a signal to resume
//! polling".  It carries the pending-wakeup flag and an instrumented record of
//! how many unpark signals have been delivered to the waiting thread, so that
//! the at-most-one-unpark-per-cycle accounting can be stated and proved.

use vstd::prelude::*;

verus! {

/// The observable state of a wake handle: `.0` is the pending-wakeup
/// ("unparked") flag, `.1` is the total number of unpark signals delivered to
/// the waiting thread so far.
pub type NotifyState = (bool, nat);

/// One wake signal: the flag is set, and an unpark is delivered only if the
/// flag was not already set — a duplicate wake must not double-unpark.
pub open spec fn wake_step(s: NotifyState) -> NotifyState {
    (true, if s.0 { s.1 } else { s.1 + 1 })
}

/// Whether a wake signal in state `s` delivers an unpark.
pub open spec fn wake_unparks(s: NotifyState) -> bool {
    !s.0
}

/// The consumer's test-and-clear: the flag is cleared, and its previous value
/// tells the consumer whether a wakeup was pending.
pub open spec fn take_step(s: NotifyState) -> NotifyState {
    (false, s.1)
}

/// What the consumer's test-and-clear observes in state `s`.
pub open spec fn take_observes(s: NotifyState) -> bool {
    s.0
}

/// `n` consecutive wake signals starting from state `s`.
pub open spec fn wake_steps(s: NotifyState, n: nat) -> NotifyState
    decreases n,
{
    if n == 0 {
        s
    } else {
        wake_step(wake_steps(s, (n - 1) as nat))
    }
}

/// A wake handle: the pending-wakeup flag of one waiting thread, together
/// with the count of unpark signals that have been delivered to it.
pub struct ThreadNotify {
    unparked: bool,
    unparks: Ghost<nat>,
}

impl ThreadNotify {
    /// The pending-wakeup flag.
    pub closed spec fn flag(&self) -> bool {
        self.unparked
    }

    /// How many unpark signals have been delivered to the thread.
    pub closed spec fn unpark_count(&self) -> nat {
        self.unparks@
    }

    /// The handle's observable state as a [`NotifyState`].
    pub open spec fn state(&self) -> NotifyState {
        (self.flag(), self.unpark_count())
    }

    /// A fresh handle: no wakeup pending, no unpark delivered yet.
    pub fn new() -> (n: ThreadNotify)
        ensures
            !n.flag(),
            n.unpark_count() == 0,
    {
        ThreadNotify { unparked: false, unparks: Ghost(0) }
    }

    /// Signal the handle without consuming it: set the pending-wakeup flag
    /// and, only if it was not already set, deliver one unpark to the thread.
    /// Returns whether an unpark was delivered.
    pub fn wake_by_ref(&mut self) -> (did_unpark: bool)
        ensures
            final(self).state() == wake_step(old(self).state()),
            did_unpark == wake_unparks(old(self).state()),
    {
        let prev = self.unparked;
        self.unparked = true;
        if !prev {
            self.unparks = Ghost(self.unparks@ + 1);
            true
        } else {
            false
        }
    }

    /// The consuming form of a wake signal; it has the same effect on the
    /// handle as [`Self::wake_by_ref`] (the consuming discipline concerns the
    /// reference count of the shared handle, not the flag).
    pub fn wake(&mut self) -> (did_unpark: bool)
        ensures
            final(self).state() == wake_step(old(self).state()),
            did_unpark == wake_unparks(old(self).state()),
    {
        self.wake_by_ref()
    }

    /// The consumer's test-and-clear: atomically (in the model, in one step)
    /// clear the flag and report whether a wakeup was pending.
    pub fn take_unparked(&mut self) -> (was_unparked: bool)
        ensures
            final(self).state() == take_step(old(self).state()),
            was_unparked == take_observes(old(self).state()),
    {
        let prev = self.unparked;
        self.unparked = false;
        prev
    }
}

/// **No missed wakeup.**  However a wake signal is interleaved with the
/// consumer's flag-check/park sequence, the consumer resumes and re-polls:
///
/// * a wake that lands before the consumer's next test-and-clear is observed
///   by that test-and-clear, so the consumer does not park at all; and
/// * a wake that lands after a test-and-clear observed `false` (the consumer
///   is parking or parked) finds the flag cleared, so it delivers an unpark,
///   which makes the park return; the subsequent test-and-clear then observes
///   the pending wakeup.
pub proof fn lemma_no_missed_wakeup(s: NotifyState)
    ensures
        take_observes(wake_step(s)),
        !s.0 ==> wake_unparks(s),
        take_observes(wake_step(take_step(s))),
{
}

/// From a state with the flag set, further wake signals change nothing: the
/// flag already encodes "resume needed".
pub proof fn lemma_wake_saturates(s: NotifyState, n: nat)
    requires
        s.0,
    ensures
        wake_steps(s, n) == s,
    decreases n,
{
    if n > 0 {
        lemma_wake_saturates(s, (n - 1) as nat);
    }
}

/// **At most one unpark per wake cycle.**  Starting from a consumed state (no
/// wakeup pending), any number `n >= 1` of wake signals — issued before the
/// consumer next clears the flag — delivers exactly one unpark.
pub proof fn lemma_at_most_one_unpark_per_cycle(s: NotifyState, n: nat)
    requires
        !s.0,
        n >= 1,
    ensures
        wake_steps(s, n).0,
        wake_steps(s, n).1 == s.1 + 1,
{
    assert(wake_steps(s, 0) == s);
    assert(wake_steps(s, 1) == wake_step(s));
    lemma_wake_steps_add(s, 1, (n - 1) as nat);
    lemma_wake_saturates(wake_step(s), (n - 1) as nat);
}

/// Between two consumptions of the flag, any number of wake signals — from
/// any starting state — delivers at most one unpark.
pub proof fn lemma_unpark_bound(s: NotifyState, n: nat)
    ensures
        wake_steps(s, n).1 <= s.1 + 1,
{
    assert(wake_steps(s, 0) == s);
    if s.0 {
        lemma_wake_saturates(s, n);
    } else if n >= 1 {
        lemma_at_most_one_unpark_per_cycle(s, n);
    }
}

/// Wake signals compose: `m + n` signals are `m` signals followed by `n`.
pub proof fn lemma_wake_steps_add(s: NotifyState, m: nat, n: nat)
    ensures
        wake_steps(s, m + n) == wake_steps(wake_steps(s, m), n),
    decreases n,
{
    if n > 0 {
        lemma_wake_steps_add(s, m, (n - 1) as nat);
        assert(m + n - 1 == m + (n - 1) as nat);
    }
}

} // verus!
