//! A minimal blocking executor: drive a single asynchronous computation to
//! completion on the calling thread, parking between poll attempts.
//!
//! The crate is organised in three layers, leaves first:
//!
//! * [`notify`] — the per-thread wake handle: a pending-wakeup flag with
//!   exactly-once-per-cycle unpark accounting.
//! * [`bridge`] — the reference-counted notification handle built over the
//!   wake handle, with the four-operation (clone / wake / wake-by-reference /
//!   drop) discipline and its reference-count integrity proofs.
//! * the executor in this root module — the re-entrancy guard and
//!   [`block_on`], the blocking drive loop.

use vstd::prelude::*;

pub mod bridge;
pub mod computations;
pub mod notify;

use crate::bridge::SharedNotify;

verus! {

/// The per-thread executor state, passed explicitly: the thread's shared
/// wake handle and the flag that records whether a blocking drive loop is
/// already running on this thread.
pub struct ThreadContext {
    /// Whether a blocking drive loop is already running on this thread.
    /// Only [`enter`] sets it and only [`exit`] clears it.
    pub entered: bool,
    /// The thread's shared notification handle.
    pub notify: SharedNotify,
}

impl ThreadContext {
    /// Whether a blocking drive loop is already running on this thread.
    pub open spec fn is_entered(&self) -> bool {
        self.entered
    }

    /// A thread's fresh executor state: no drive loop running, a fresh wake
    /// handle held by its one owner (the thread itself).
    pub fn new() -> (ctx: ThreadContext)
        ensures
            !ctx.is_entered(),
            ctx.notify.refs() == 1,
            !ctx.notify.flag(),
            ctx.notify.unparks() == 0,
    {
        ThreadContext { entered: false, notify: SharedNotify::new() }
    }
}

/// The token held while a blocking drive loop runs on a thread.  It can only
/// be made by [`enter`] and only be given back through [`exit`], so at most
/// one is alive per thread at any time.
pub struct EnterGuard {
    _priv: (),
}

/// The one reportable failure: a thread that already runs a blocking drive
/// loop tried to start another one.
#[derive(Debug)]
pub struct EnterError {
    _priv: (),
}

impl EnterError {
    /// A description of the failure.
    pub fn message(&self) -> (m: String)
        ensures
            m@ == "an execution scope has already been entered"@,
    {
        let m = "an execution scope has already been entered".to_string();
        proof {
            vstd::string::to_string_from_display_ensures_for_str(
                "an execution scope has already been entered",
                m,
            );
        }
        m
    }
}

/// Mark the thread as running a blocking drive loop.  Fails, changing
/// nothing, exactly when the thread is already running one.
pub fn enter(ctx: &mut ThreadContext) -> (r: Result<EnterGuard, EnterError>)
    ensures
        r is Ok <==> !old(ctx).is_entered(),
        !old(ctx).is_entered() ==> final(ctx).is_entered() && final(ctx).notify == old(ctx).notify,
        old(ctx).is_entered() ==> *final(ctx) == *old(ctx),
{
    if ctx.entered {
        Err(EnterError { _priv: () })
    } else {
        ctx.entered = true;
        Ok(EnterGuard { _priv: () })
    }
}

/// Give back the token taken by [`enter`], marking the thread as no longer
/// running a blocking drive loop.
pub fn exit(ctx: &mut ThreadContext, guard: EnterGuard)
    requires
        old(ctx).is_entered(),
    ensures
        !final(ctx).is_entered(),
        final(ctx).notify == old(ctx).notify,
{
    let EnterGuard { _priv: () } = guard;
    ctx.entered = false;
}

/// An asynchronous computation that the blocking drive loop can poll to
/// completion.
///
/// Its observable behaviour is fixed by its spec views: it reports "not
/// ready" for exactly [`Self::pending`] polls and then completes with
/// [`Self::value`], while [`Self::polled`] counts every poll it receives.
/// Each "not ready" poll signals the notification handle before returning,
/// standing for the wake call that the computation's own machinery promises
/// to make once progress is possible.
pub trait Computation: Sized {
    /// The type of the final value.
    type Output;

    /// The computation's own well-formedness condition.
    spec fn wf(&self) -> bool;

    /// How many more polls will report "not ready" before completion.
    spec fn pending(&self) -> nat;

    /// The final value the computation completes with.
    spec fn value(&self) -> Self::Output;

    /// How many polls the computation has received so far.
    spec fn polled(&self) -> nat;

    /// One attempt to advance the computation.  Returns the final value once
    /// the computation is ready — exactly when no "not ready" polls are left
    /// — and `None`, after arranging a wake, while it is not.
    fn poll(&mut self, ctx: &mut ThreadContext) -> (r: Option<Self::Output>)
        requires
            old(self).wf(),
            old(ctx).is_entered(),
            old(ctx).notify.refs() >= 1,
        ensures
            r is Some <==> old(self).pending() == 0,
            old(self).pending() == 0 ==> r == Some(old(self).value()) && final(self).pending()
                == 0,
            old(self).pending() > 0 ==> final(self).wf() && final(self).pending()
                == old(self).pending() - 1 && final(self).value() == old(self).value()
                && final(ctx).notify.flag(),
            final(self).polled() == old(self).polled() + 1,
            final(ctx).is_entered() == old(ctx).is_entered(),
            final(ctx).notify.refs() == old(ctx).notify.refs(),
        ;
}

/// Wait until a wakeup is pending, then consume it: the gap between two poll
/// attempts.  The drive loop parks the thread while the flag is clear; a
/// pending wakeup — which the contract of [`Computation::poll`] guarantees
/// here — is consumed at once, without parking.
fn wait_for_unpark(ctx: &mut ThreadContext)
    requires
        old(ctx).notify.flag(),
    ensures
        !final(ctx).notify.flag(),
        final(ctx).is_entered() == old(ctx).is_entered(),
        final(ctx).notify.refs() == old(ctx).notify.refs(),
        final(ctx).notify.unparks() == old(ctx).notify.unparks(),
{
    loop
        invariant_except_break
            ctx.notify.flag(),
            ctx.is_entered() == old(ctx).is_entered(),
            ctx.notify.refs() == old(ctx).notify.refs(),
            ctx.notify.unparks() == old(ctx).notify.unparks(),
        ensures
            !ctx.notify.flag(),
            ctx.is_entered() == old(ctx).is_entered(),
            ctx.notify.refs() == old(ctx).notify.refs(),
            ctx.notify.unparks() == old(ctx).notify.unparks(),
        decreases 0int,
    {
        if ctx.notify.take_unparked() {
            break;
        }
        // The thread would park here; with a wakeup already pending the
        // test-and-clear above cannot have missed it, so this point is
        // unreachable.
        proof {
            assert(false);
        }
    }
}

/// Block the calling thread and drive one asynchronous computation to
/// completion, returning its final value.
///
/// The thread must not already be running a blocking drive loop (a nested
/// invocation is a programming error, which [`enter`] reports); the loop
/// marks the thread, polls the computation until it is ready — consuming one
/// pending wakeup between attempts — and unmarks the thread before
/// returning.  The computation completes after exactly `computation.pending()`
/// "not ready" polls, so the thread is parked only finitely often and the
/// call returns `computation.value()`.
pub fn block_on<C: Computation>(ctx: &mut ThreadContext, computation: C) -> (r: C::Output)
    requires
        computation.wf(),
        !old(ctx).is_entered(),
        old(ctx).notify.refs() >= 1,
    ensures
        r == computation.value(),
        !final(ctx).is_entered(),
        final(ctx).notify.refs() == old(ctx).notify.refs(),
{
    let guard = match enter(ctx) {
        Ok(guard) => guard,
        Err(_) => vstd::pervasive::unreached(),
    };
    let mut computation = computation;
    let value = run_executor(ctx, &mut computation);
    exit(ctx, guard);
    value
}

/// The drive loop proper: poll the computation until it is ready, consuming
/// one pending wakeup — and, in between, parking the thread — after every
/// "not ready" poll.
///
/// Its contract is the completion-correctness statement in general: for
/// every computation that reports "not ready" exactly `pending()` times and
/// then completes, the loop returns the final value and polls the
/// computation exactly `pending() + 1` times — once more than the number of
/// "not ready" reports.
pub fn run_executor<C: Computation>(ctx: &mut ThreadContext, comp: &mut C) -> (r: C::Output)
    requires
        old(comp).wf(),
        old(ctx).is_entered(),
        old(ctx).notify.refs() >= 1,
    ensures
        r == old(comp).value(),
        final(comp).pending() == 0,
        final(comp).polled() == old(comp).polled() + old(comp).pending() + 1,
        final(ctx).is_entered(),
        final(ctx).notify.refs() == old(ctx).notify.refs(),
{
    loop
        invariant
            comp.wf(),
            comp.value() == old(comp).value(),
            comp.polled() + comp.pending() == old(comp).polled() + old(comp).pending(),
            ctx.is_entered(),
            ctx.notify.refs() == old(ctx).notify.refs(),
            ctx.notify.refs() >= 1,
        decreases comp.pending(),
    {
        match comp.poll(ctx) {
            Some(value) => {
                return value;
            },
            None => {
                wait_for_unpark(ctx);
            },
        }
    }
}

} // verus!
