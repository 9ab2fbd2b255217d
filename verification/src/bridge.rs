//! The notification-handle bridge.
//!
//! A `SharedNotify` is the shared allocation behind every outstanding opaque
//! notification handle: one wake handle together with its reference count.
//! The four operations of the handle vtable — clone, consuming wake,
//! wake-by-reference and drop — are the only ways to create, duplicate or
//! destroy a unit of that count, and each states its exact effect on both the
//! count and the wake flag.

use vstd::prelude::*;

use crate::notify::NotifyState;
use crate::notify::ThreadNotify;
use crate::notify::take_step;
use crate::notify::take_observes;
use crate::notify::wake_step;
use crate::notify::wake_unparks;

verus! {

/// One operation of the four-entry notification vtable.
pub enum HandleOp {
    /// Duplicate a handle: one more unit of reference count.
    CloneRef,
    /// The consuming wake: signal, then give up the caller's unit of count.
    Wake,
    /// The non-consuming wake: signal, count untouched.
    WakeByRef,
    /// Destroy a handle: give up one unit of count without signalling.
    DropRef,
}

/// How an operation changes the reference count.
pub open spec fn op_delta(op: HandleOp) -> int {
    match op {
        HandleOp::CloneRef => 1,
        HandleOp::Wake => -1,
        HandleOp::WakeByRef => 0,
        HandleOp::DropRef => -1,
    }
}

/// How an operation changes the wake handle's state: the two wake forms
/// signal it, clone and drop leave it untouched.
pub open spec fn op_notify_step(s: NotifyState, op: HandleOp) -> NotifyState {
    if op is Wake || op is WakeByRef {
        wake_step(s)
    } else {
        s
    }
}

/// The wake handle's state after a sequence of operations.
pub open spec fn state_after(s: NotifyState, ops: Seq<HandleOp>) -> NotifyState
    decreases ops.len(),
{
    if ops.len() == 0 {
        s
    } else {
        state_after(op_notify_step(s, ops[0]), ops.drop_first())
    }
}

/// Call discipline for one operation: every operation acts through some live
/// handle, so at least one unit of count must be outstanding, and a clone
/// must leave the count representable.
pub open spec fn op_valid(refs: int, op: HandleOp) -> bool {
    &&& refs >= 1
    &&& (op is CloneRef ==> refs < u64::MAX)
}

/// Call discipline for a whole sequence of operations.
pub open spec fn ops_valid(refs: int, ops: Seq<HandleOp>) -> bool
    decreases ops.len(),
{
    ops.len() == 0 || (op_valid(refs, ops[0]) && ops_valid(
        refs + op_delta(ops[0]),
        ops.drop_first(),
    ))
}

/// The reference count after a sequence of operations.
pub open spec fn refs_after(refs: int, ops: Seq<HandleOp>) -> int
    decreases ops.len(),
{
    if ops.len() == 0 {
        refs
    } else {
        refs_after(refs + op_delta(ops[0]), ops.drop_first())
    }
}

/// How many operations of a sequence create a unit of count.
pub open spec fn clone_ops(ops: Seq<HandleOp>) -> int
    decreases ops.len(),
{
    if ops.len() == 0 {
        0
    } else {
        (if ops[0] is CloneRef {
            1int
        } else {
            0int
        }) + clone_ops(ops.drop_first())
    }
}

/// How many operations of a sequence consume a unit of count (consuming
/// wakes and drops).
pub open spec fn consuming_ops(ops: Seq<HandleOp>) -> int
    decreases ops.len(),
{
    if ops.len() == 0 {
        0
    } else {
        (if ops[0] is Wake || ops[0] is DropRef {
            1int
        } else {
            0int
        }) + consuming_ops(ops.drop_first())
    }
}

/// The shared allocation behind the opaque notification handles: the
/// thread's wake handle and the number of handles outstanding.
pub struct SharedNotify {
    count: u64,
    notify: ThreadNotify,
}

impl SharedNotify {
    /// The number of opaque handles outstanding.
    pub closed spec fn refs(&self) -> int {
        self.count as int
    }

    /// The pending-wakeup flag of the underlying wake handle.
    pub closed spec fn flag(&self) -> bool {
        self.notify.flag()
    }

    /// How many unpark signals the underlying wake handle has delivered.
    pub closed spec fn unparks(&self) -> nat {
        self.notify.unpark_count()
    }

    /// The underlying wake handle's observable state.
    pub open spec fn notify_state(&self) -> NotifyState {
        (self.flag(), self.unparks())
    }

    /// A fresh shared handle with one owner: the drive loop that created it.
    pub fn new() -> (s: SharedNotify)
        ensures
            s.refs() == 1,
            !s.flag(),
            s.unparks() == 0,
    {
        SharedNotify { count: 1, notify: ThreadNotify::new() }
    }

    /// The current reference count.
    pub fn ref_count(&self) -> (c: u64)
        ensures
            c as int == self.refs(),
    {
        self.count
    }

    /// Clone a handle: reconstruct a borrowed view of the shared allocation
    /// and take one more unit of reference count, leaving the original
    /// handle's unit untouched.
    pub fn clone_raw(&mut self)
        requires
            op_valid(old(self).refs(), HandleOp::CloneRef),
        ensures
            final(self).refs() == old(self).refs() + 1,
            final(self).notify_state() == old(self).notify_state(),
    {
        self.count = self.count + 1;
    }

    /// The consuming wake: signal the wake handle, then give up the calling
    /// handle's unit of reference count.  Returns whether an unpark was
    /// delivered.
    pub fn wake_raw(&mut self) -> (did_unpark: bool)
        requires
            op_valid(old(self).refs(), HandleOp::Wake),
        ensures
            final(self).refs() == old(self).refs() - 1,
            final(self).notify_state() == wake_step(old(self).notify_state()),
            did_unpark == wake_unparks(old(self).notify_state()),
    {
        let did_unpark = self.notify.wake();
        self.count = self.count - 1;
        did_unpark
    }

    /// The non-consuming wake: signal the wake handle through a borrowed
    /// view, leaving the reference count untouched.  Returns whether an
    /// unpark was delivered.
    pub fn wake_by_ref_raw(&mut self) -> (did_unpark: bool)
        requires
            op_valid(old(self).refs(), HandleOp::WakeByRef),
        ensures
            final(self).refs() == old(self).refs(),
            final(self).notify_state() == wake_step(old(self).notify_state()),
            did_unpark == wake_unparks(old(self).notify_state()),
    {
        self.notify.wake_by_ref()
    }

    /// Drop a handle: give up its unit of reference count without
    /// signalling.
    pub fn drop_raw(&mut self)
        requires
            op_valid(old(self).refs(), HandleOp::DropRef),
        ensures
            final(self).refs() == old(self).refs() - 1,
            final(self).notify_state() == old(self).notify_state(),
    {
        self.count = self.count - 1;
    }

    /// The consumer's test-and-clear of the pending-wakeup flag, through the
    /// shared handle.
    pub fn take_unparked(&mut self) -> (was_unparked: bool)
        ensures
            final(self).refs() == old(self).refs(),
            final(self).notify_state() == take_step(old(self).notify_state()),
            was_unparked == take_observes(old(self).notify_state()),
    {
        self.notify.take_unparked()
    }

    /// The vtable as one dispatch: apply one of the four operations, with
    /// its exact effect on both the reference count and the wake handle.
    pub fn apply_op(&mut self, op: &HandleOp)
        requires
            op_valid(old(self).refs(), *op),
        ensures
            final(self).refs() == old(self).refs() + op_delta(*op),
            final(self).notify_state() == op_notify_step(old(self).notify_state(), *op),
    {
        match op {
            HandleOp::CloneRef => self.clone_raw(),
            HandleOp::Wake => {
                let _ = self.wake_raw();
            },
            HandleOp::WakeByRef => {
                let _ = self.wake_by_ref_raw();
            },
            HandleOp::DropRef => self.drop_raw(),
        }
    }

    /// Apply a whole sequence of handle operations, in order, with the
    /// sequence's exact effect on both the reference count and the wake
    /// handle.
    pub fn apply_ops(&mut self, ops: &Vec<HandleOp>)
        requires
            ops_valid(old(self).refs(), ops@),
        ensures
            final(self).refs() == refs_after(old(self).refs(), ops@),
            final(self).notify_state() == state_after(old(self).notify_state(), ops@),
    {
        let n: usize = ops.len();
        let mut i: usize = 0;
        proof {
            assert(ops@.skip(0) =~= ops@);
        }
        while i < n
            invariant
                n == ops@.len(),
                i <= n,
                ops_valid(self.refs(), ops@.skip(i as int)),
                refs_after(old(self).refs(), ops@) == refs_after(
                    self.refs(),
                    ops@.skip(i as int),
                ),
                state_after(old(self).notify_state(), ops@) == state_after(
                    self.notify_state(),
                    ops@.skip(i as int),
                ),
            decreases n - i,
        {
            proof {
                assert(ops@.skip(i as int).drop_first() =~= ops@.skip(i + 1));
                assert(ops@.skip(i as int)[0] == ops@[i as int]);
            }
            self.apply_op(&ops[i]);
            i = i + 1;
        }
        proof {
            assert(ops@.skip(n as int) =~= Seq::<HandleOp>::empty());
        }
    }
}

/// **Reference-count integrity.**  For every sequence of clone / wake /
/// wake-by-reference / drop operations that respects the call discipline
/// (each operation acts through a live handle), the count after the sequence
/// is exactly the initial count plus the clones minus the consuming
/// operations; it never goes below zero (no double-free), and it reaches
/// zero exactly when every unit that ever existed has been consumed (no
/// leak).
pub proof fn lemma_refcount_integrity(refs: int, ops: Seq<HandleOp>)
    requires
        refs >= 0,
        ops_valid(refs, ops),
    ensures
        refs_after(refs, ops) == refs + clone_ops(ops) - consuming_ops(ops),
        refs_after(refs, ops) >= 0,
        refs_after(refs, ops) == 0 <==> consuming_ops(ops) == refs + clone_ops(ops),
    decreases ops.len(),
{
    if ops.len() > 0 {
        lemma_refcount_integrity(refs + op_delta(ops[0]), ops.drop_first());
    }
}

/// **Idempotent wake-by-reference.**  However often a handle is woken by
/// reference, the reference count is untouched, while each consuming wake
/// gives up one unit; both forms have the same effect on the wake flag.
pub proof fn lemma_wake_by_ref_keeps_count(refs: int, n: nat)
    requires
        refs >= 1,
    ensures
        refs_after(refs, Seq::new(n, |i: int| HandleOp::WakeByRef)) == refs,
        refs_after(refs, seq![HandleOp::Wake]) == refs - 1,
    decreases n,
{
    let by_ref = Seq::new(n, |i: int| HandleOp::WakeByRef);
    if n == 0 {
        assert(by_ref.len() == 0);
    } else {
        lemma_wake_by_ref_keeps_count(refs, (n - 1) as nat);
        assert(by_ref.drop_first() =~= Seq::new((n - 1) as nat, |i: int| HandleOp::WakeByRef));
    }
    let consuming = seq![HandleOp::Wake];
    assert(consuming[0] == HandleOp::Wake);
    assert(consuming.drop_first() =~= Seq::<HandleOp>::empty());
    assert(refs_after(refs, consuming) == refs_after(refs - 1, consuming.drop_first()));
}

} // verus!
