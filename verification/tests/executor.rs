use future_utils::ThreadContext;
use future_utils::block_on;
use future_utils::bridge::HandleOp;
use future_utils::bridge::SharedNotify;
use future_utils::computations::CountedComputation;
use future_utils::computations::ReentrantProbe;
use future_utils::enter;
use future_utils::exit;
use future_utils::notify::ThreadNotify;
use future_utils::run_executor;

#[test]
fn wake_before_check_is_observed() {
    // A wake that lands before the consumer's test-and-clear is seen by it.
    let mut notify = ThreadNotify::new();
    let did_unpark = notify.wake_by_ref();
    assert!(did_unpark);
    assert!(notify.take_unparked());
    // The cycle is consumed: nothing pending afterwards.
    assert!(!notify.take_unparked());
}

#[test]
fn wake_after_cleared_check_unparks() {
    // The consumer observed no wakeup and is about to park; the wake that
    // then arrives must deliver an unpark, and the next check must see it.
    let mut notify = ThreadNotify::new();
    assert!(!notify.take_unparked());
    let did_unpark = notify.wake_by_ref();
    assert!(did_unpark);
    assert!(notify.take_unparked());
}

#[test]
fn at_most_one_unpark_per_cycle() {
    // Two wakes before the consumer consumes the flag unpark only once.
    let mut notify = ThreadNotify::new();
    assert!(notify.wake_by_ref());
    assert!(!notify.wake_by_ref());
    assert!(!notify.wake());
    assert!(notify.take_unparked());
    // A new cycle: the next wake unparks again.
    assert!(notify.wake_by_ref());
}

#[test]
fn consuming_wake_decrements_count() {
    let mut shared = SharedNotify::new();
    assert_eq!(shared.ref_count(), 1);
    shared.clone_raw();
    assert_eq!(shared.ref_count(), 2);
    let did_unpark = shared.wake_raw();
    assert!(did_unpark);
    assert_eq!(shared.ref_count(), 1);
}

#[test]
fn wake_by_ref_keeps_count() {
    let mut shared = SharedNotify::new();
    shared.clone_raw();
    assert_eq!(shared.ref_count(), 2);
    let did_unpark = shared.wake_by_ref_raw();
    assert!(did_unpark);
    assert_eq!(shared.ref_count(), 2);
    // A second wake-by-reference in the same cycle does not unpark again.
    assert!(!shared.wake_by_ref_raw());
    assert_eq!(shared.ref_count(), 2);
}

#[test]
fn refcount_returns_to_zero_with_last_consumption() {
    // clone, clone, wake-by-ref, drop, wake, drop: the count returns to
    // zero exactly when the last outstanding handle is consumed.
    let mut shared = SharedNotify::new();
    let ops = vec![
        HandleOp::CloneRef,
        HandleOp::CloneRef,
        HandleOp::WakeByRef,
        HandleOp::DropRef,
        HandleOp::Wake,
    ];
    shared.apply_ops(&ops);
    assert_eq!(shared.ref_count(), 1);
    shared.apply_ops(&vec![HandleOp::DropRef]);
    assert_eq!(shared.ref_count(), 0);
}

#[test]
fn dispatch_signals_on_wake_operations_only() {
    let mut shared = SharedNotify::new();
    shared.apply_op(&HandleOp::CloneRef);
    // Clone does not signal: nothing pending.
    assert!(!shared.take_unparked());
    shared.apply_op(&HandleOp::WakeByRef);
    assert!(shared.take_unparked());
    shared.apply_op(&HandleOp::Wake);
    assert!(shared.take_unparked());
    shared.apply_op(&HandleOp::DropRef);
    // Drop does not signal either.
    assert!(!shared.take_unparked());
    assert_eq!(shared.ref_count(), 0);
}

#[test]
fn empty_op_sequence_changes_nothing() {
    let mut shared = SharedNotify::new();
    shared.apply_ops(&Vec::new());
    assert_eq!(shared.ref_count(), 1);
}

#[test]
fn block_on_returns_value_when_immediately_ready() {
    // Zero "not ready" polls: the computation is polled exactly once.
    let mut ctx = ThreadContext::new();
    let result = block_on(&mut ctx, CountedComputation::new(0));
    assert_eq!(result, 1);
}

#[test]
fn block_on_polls_exactly_pending_plus_one_times() {
    // Three "not ready" polls, then ready: four polls in all, and the
    // computation's value counts its polls.
    let mut ctx = ThreadContext::new();
    let result = block_on(&mut ctx, CountedComputation::new(3));
    assert_eq!(result, 4);
}

#[test]
fn block_on_leaves_context_reusable() {
    let mut ctx = ThreadContext::new();
    assert_eq!(block_on(&mut ctx, CountedComputation::new(2)), 3);
    // The entered mark and the reference count are restored, so the same
    // thread can drive another computation.
    assert_eq!(block_on(&mut ctx, CountedComputation::new(5)), 6);
    assert_eq!(ctx.notify.ref_count(), 1);
}

#[test]
fn run_executor_polls_once_more_than_pending() {
    // The drive loop proper, between an explicit enter and exit: three "not
    // ready" reports, four polls, and the computation's value counts them.
    let mut ctx = ThreadContext::new();
    let guard = enter(&mut ctx).unwrap();
    let mut computation = CountedComputation::new(3);
    let result = run_executor(&mut ctx, &mut computation);
    assert_eq!(result, 4);
    exit(&mut ctx, guard);
    assert_eq!(ctx.notify.ref_count(), 1);
}

#[test]
fn nested_enter_is_rejected() {
    let mut ctx = ThreadContext::new();
    let guard = enter(&mut ctx).unwrap();
    let nested = enter(&mut ctx);
    match nested {
        Err(error) => assert_eq!(error.message(), "an execution scope has already been entered"),
        Ok(_) => panic!("nested enter must be rejected"),
    }
    exit(&mut ctx, guard);
    // After exiting, entering succeeds again.
    assert!(enter(&mut ctx).is_ok());
}

#[test]
fn reentrant_block_on_is_rejected() {
    // A computation that attempts a nested blocking drive loop from within
    // its own poll: the nested attempt is refused, and the computation
    // completes reporting the rejection.
    let mut ctx = ThreadContext::new();
    let rejected = block_on(&mut ctx, ReentrantProbe::new());
    assert!(rejected);
}
