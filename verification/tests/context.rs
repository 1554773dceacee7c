use skip_graph::context::irrecoverable_message;
use skip_graph::context::is_deadline_reached;
use skip_graph::context::limit_run;
use skip_graph::context::race_result;
use skip_graph::context::remaining;
use skip_graph::context::why_unusable;
use skip_graph::context::CancelHandle;
use skip_graph::context::ContextError;
use skip_graph::context::Race;
use skip_graph::IrrevocableContext;
use std::time::Duration;

const MILLISECOND: u128 = 1_000_000;

fn runtime() -> tokio::runtime::Runtime {
    tokio::runtime::Builder::new_current_thread().enable_time().build().unwrap()
}

/// Lets time pass.
fn pause(millis: u64) {
    runtime().block_on(async move { tokio::time::sleep(Duration::from_millis(millis)).await });
}

/// Cancelling a context works as expected.
#[test]
fn test_basic_cancellation() {
    let ctx = IrrevocableContext::new();
    assert!(!ctx.is_cancelled());
    ctx.cancel();
    assert!(ctx.is_cancelled());
    assert!(ctx.clone().is_cancelled());
}

/// Cancelling a parent context cancels its children.
#[test]
fn test_child_cancellation() {
    let parent = IrrevocableContext::new();
    let child = parent.child();
    assert!(!child.is_cancelled());
    parent.cancel();
    assert!(child.is_cancelled());
}

/// Cancelling a child leaves its parent and its siblings alone.
#[test]
fn child_cancellation_does_not_reach_the_parent() {
    let parent = IrrevocableContext::new();
    let child = parent.child();
    let sibling = parent.child();
    child.cancel();
    assert!(child.is_cancelled());
    assert!(!parent.is_cancelled());
    assert!(!sibling.is_cancelled());
}

/// An operation completes successfully if its context is not cancelled.
#[test]
fn test_successful_operation() {
    let ctx = IrrevocableContext::new();
    assert_eq!(ctx.begin_run(), Ok(None));
    let result = race_result(Race::Finished(42));
    assert!(result.is_ok());
    assert_eq!(result.unwrap(), 42);
}

/// An operation does not begin if its context is cancelled.
#[test]
fn test_run_with_cancellation() {
    let ctx = IrrevocableContext::new();
    ctx.cancel();
    let result = ctx.begin_run();
    assert!(result.is_err());
    assert!(result.unwrap_err().as_str().contains("context cancelled"));
}

/// Nested child contexts are cancelled when the root context is cancelled.
#[test]
fn test_nested_children() {
    let root = IrrevocableContext::new();
    let child1 = root.child();
    let child2 = child1.child();
    let grandchild = child2.child();
    assert!(!grandchild.is_cancelled());
    root.cancel();
    assert!(child1.is_cancelled() && child2.is_cancelled() && grandchild.is_cancelled());
}

/// The hierarchy through which errors propagate can be created.
#[test]
fn test_error_propagation_structure() {
    let root = IrrevocableContext::new();
    let child = root.child();
    let grandchild = child.child();

    grandchild.cancel();

    // verify the parent chain exists
    assert!(grandchild.parent().is_some());
    assert!(child.parent().is_some());
    assert!(root.parent().is_none());
}

/// An irrecoverable error comes to the root, whose text names it.
#[test]
fn irrecoverable_errors_come_to_the_root() {
    let root = IrrevocableContext::with_timeout(1_234);
    let grandchild = root.child().child();
    assert!(grandchild.root().parent().is_none());
    assert_eq!(grandchild.root().deadline(), Some(1_234));
    assert_eq!(
        irrecoverable_message("test irrecoverable error"),
        "irrecoverable error: test irrecoverable error"
    );
}

/// A context created with a timeout fails a longer-running operation with a deadline error.
#[test]
fn test_run_respects_deadline() {
    let ctx = IrrevocableContext::with_timeout(10 * MILLISECOND);
    let left = ctx.begin_run().unwrap().unwrap();
    assert!(0 < left && left <= 10 * MILLISECOND);
    let limit = Duration::from_nanos(u64::try_from(left).unwrap());
    let race = runtime().block_on(async move {
        match tokio::time::timeout(limit, tokio::time::sleep(Duration::from_millis(200))).await {
            Ok(()) => Race::Finished(()),
            Err(_) => Race::DeadlinePassed,
        }
    });
    let result = race_result(race);
    assert!(result.is_err());
    assert!(result.unwrap_err().as_str().contains("deadline exceeded"));
}

/// is_deadline_exceeded reflects the deadline crossing.
#[test]
fn test_is_deadline_exceeded() {
    let ctx = IrrevocableContext::with_timeout(5 * MILLISECOND);
    assert!(!ctx.is_deadline_exceeded());
    assert!(ctx.deadline().is_some());
    pause(20);
    assert!(ctx.is_deadline_exceeded());
    assert!(ctx.err().is_some());
}

/// A child shares the deadline of its parent, counted from the same start.
#[test]
fn children_inherit_the_deadline() {
    let parent = IrrevocableContext::with_timeout(50 * MILLISECOND);
    pause(80);
    let child = parent.child();
    assert_eq!(child.deadline(), Some(50 * MILLISECOND));
    assert_eq!(child.start(), parent.start());
    assert!(child.is_deadline_exceeded());
    assert_eq!(child.err(), Some(ContextError::DeadlineExceeded));
}

/// with_cancel returns a child plus a handle that cancels it.
#[test]
fn test_with_cancel_closure() {
    let root = IrrevocableContext::new();
    let (child, cancel) = root.with_cancel();
    assert!(!child.is_cancelled());
    let spare: CancelHandle = cancel.clone();
    spare.cancel();
    assert!(child.is_cancelled());
    assert!(!root.is_cancelled());
    cancel.cancel();
    assert!(!root.is_cancelled());
}

/// Beginning an operation on an already-expired context gives the deadline error.
#[test]
fn test_run_short_circuits_when_deadline_already_passed() {
    let ctx = IrrevocableContext::with_timeout(5 * MILLISECOND);
    pause(20);
    assert!(ctx.is_deadline_exceeded());
    let result = ctx.begin_run();
    assert!(result.is_err());
    assert!(result.unwrap_err().as_str().contains("deadline exceeded"));
}

/// A cancellation that fires while an operation is in flight wins over a distant deadline.
#[test]
fn test_run_cancellation_beats_deadline() {
    let ctx = IrrevocableContext::with_timeout(60_000 * MILLISECOND);
    let canceller = ctx.clone();
    assert!(ctx.begin_run().unwrap().unwrap() > 1_000 * MILLISECOND);
    let race = runtime().block_on(async move {
        let task = tokio::spawn(async move {
            tokio::time::sleep(Duration::from_millis(10)).await;
            canceller.cancel();
        });
        let operation = tokio::time::sleep(Duration::from_millis(200));
        let race = match ctx.token().run_until_cancelled(operation).await {
            Some(()) => Race::Finished(()),
            None => Race::Cancelled,
        };
        task.await.unwrap();
        race
    });
    let result = race_result(race);
    assert!(result.is_err());
    assert!(result.unwrap_err().as_str().contains("context cancelled"));
}

/// A handle cancels its context and what descends from it, and neither the parent nor a
/// sibling. A context made from a cancelled one is cancelled at once.
#[test]
fn cancellation_reaches_exactly_the_descendants() {
    let root = IrrevocableContext::new();
    let (child, cancel) = root.with_cancel();
    let sibling = root.child();
    let grandchild = child.child();
    cancel.cancel();
    assert!(child.is_cancelled() && grandchild.is_cancelled());
    assert!(!root.is_cancelled() && !sibling.is_cancelled());
    assert!(child.child().is_cancelled());
    assert!(!root.child().is_cancelled());
    assert_eq!(grandchild.err(), Some(ContextError::Cancelled));
    assert_eq!(sibling.err(), None);
}

/// A cancelled context stays cancelled, and cancelling it again reaches nobody else.
#[test]
fn cancellation_is_irrevocable() {
    let root = IrrevocableContext::new();
    let child = root.child();
    let sibling = root.child();
    let unrelated = IrrevocableContext::new();
    for _ in 0..2 {
        child.cancel();
        assert!(child.is_cancelled() && child.clone().is_cancelled());
        assert!(!root.is_cancelled() && !sibling.is_cancelled() && !unrelated.is_cancelled());
    }
    sibling.cancel();
    assert!(child.is_cancelled() && !root.is_cancelled());
}

/// Every decision of a context on given readings.
#[test]
fn decisions_on_given_readings() {
    assert!(!is_deadline_reached(None, u128::MAX));
    assert!(!is_deadline_reached(Some(7), 6));
    assert!(is_deadline_reached(Some(7), 7));
    assert_eq!(remaining(None, 3), None);
    assert_eq!(remaining(Some(7), 3), Some(4));
    assert_eq!(remaining(Some(7), 9), Some(0));
    assert_eq!(why_unusable(false, false), None);
    assert_eq!(why_unusable(false, true), Some(ContextError::DeadlineExceeded));
    assert_eq!(why_unusable(true, false), Some(ContextError::Cancelled));
    assert_eq!(why_unusable(true, true), Some(ContextError::Cancelled));
    assert_eq!(limit_run(None, false, 5), Ok(None));
    assert_eq!(limit_run(Some(7), false, 5), Ok(Some(2)));
    assert_eq!(limit_run(Some(7), false, 7), Err(ContextError::DeadlineExceeded));
    assert_eq!(limit_run(Some(7), true, 9), Err(ContextError::Cancelled));
    assert_eq!(limit_run(None, true, 0), Err(ContextError::Cancelled));
    assert_eq!(race_result::<u8>(Race::Cancelled), Err(ContextError::Cancelled));
    assert_eq!(race_result::<u8>(Race::DeadlinePassed), Err(ContextError::DeadlineExceeded));
    assert_eq!(ContextError::Cancelled.as_str(), "context cancelled");
    assert_eq!(ContextError::DeadlineExceeded.as_str(), "context deadline exceeded");
}
