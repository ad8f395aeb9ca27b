use scoped_ref::{
    Backend, Policy, RetireAction, ScopedRef, Span, Teardown, TypeConnector, Unwind, WaitStep,
};
use std::time::{Duration, Instant};

struct RefString;

impl TypeConnector for RefString {
    type Super<'a> = String;
}

fn runtime() -> tokio::runtime::Runtime {
    tokio::runtime::Builder::new_multi_thread().worker_threads(4).enable_time().build().unwrap()
}

/// Waits as a task: takes a round, and suspends on its wake as the round
/// says.
async fn await_guards(scope: &ScopedRef<'_, RefString>, timeout: Option<Duration>) {
    let start = Instant::now();
    let limit = timeout.map(|limit| limit.as_nanos());
    loop {
        let suspension = scope.suspend_round(limit, start.elapsed().as_nanos());
        let wake = suspension.wake.unwrap();
        match suspension.round.step {
            WaitStep::Done => return,
            WaitStep::Park => wake.await,
            WaitStep::ParkFor(nanos) => {
                let span = Span::of_nanos(nanos);
                let span = Duration::new(span.secs, span.subsec_nanos);
                let _ = tokio::time::timeout(span, wake).await;
            }
        }
    }
}

#[test]
fn cooperative_scope_needs_a_runtime() {
    let data = String::from("x");
    let scope = ScopedRef::<RefString>::new(&data);
    assert_eq!(scope.policy().backend, Backend::Cooperative);
    assert!(scope.suspend_round(None, 0).wake.is_some());
    assert!(!scope.runtime_ready());
    let runtime = runtime();
    let inside = runtime.enter();
    assert!(scope.runtime_ready());
    drop(inside);
    assert!(!scope.runtime_ready());
}

#[test]
fn cooperative_round_never_parks_the_thread() {
    let data = String::from("x");
    let scope = ScopedRef::<RefString>::new(&data);
    let guard = scope.new_ref();
    let start = Instant::now();
    let round = scope.await_round(None, 0);
    assert_eq!(round.observed, 1);
    assert_eq!(round.step, WaitStep::Park);
    let round = scope.await_round(Some(60_000_000_000), 1_000_000_000);
    assert_eq!(round.step, WaitStep::ParkFor(59_000_000_000));
    assert!(start.elapsed() < Duration::from_secs(5));
    guard.release();
    assert_eq!(scope.await_round(None, 0).step, WaitStep::Done);
}

#[test]
fn suspended_round_hands_out_the_wake_of_the_last_drop() {
    let data = String::from("x");
    let runtime = runtime();
    runtime.block_on(async {
        let scope = ScopedRef::<RefString>::new(&data);
        let guard = scope.new_ref();
        let suspension = scope.suspend_round(None, 0);
        assert_eq!(suspension.round.observed, 1);
        assert_eq!(suspension.round.step, WaitStep::Park);
        let wake = suspension.wake.unwrap();
        // The guard goes after the round read the counter and before the
        // task suspends: the wake was made in time to have it.
        guard.release();
        assert!(tokio::time::timeout(Duration::from_secs(5), wake).await.is_ok());
        assert_eq!(scope.suspend_round(None, 0).round.step, WaitStep::Done);

        let guard = scope.new_ref();
        let second = guard.clone();
        let wake = scope.suspend_round(None, 0).wake.unwrap();
        // A release that leaves a guard out raises no wake.
        guard.release();
        assert!(tokio::time::timeout(Duration::from_millis(50), wake).await.is_err());
        second.release();
    });
}

#[test]
fn last_drop_wakes_the_waiting_task() {
    let data: &'static String = Box::leak(Box::new(String::from("x")));
    let runtime = runtime();
    runtime.block_on(async {
        let scope = ScopedRef::<RefString>::new(data);
        let first = scope.new_ref();
        let second = first.clone();
        let start = Instant::now();
        tokio::spawn(async move {
            tokio::time::sleep(Duration::from_millis(30)).await;
            first.release();
            tokio::time::sleep(Duration::from_millis(60)).await;
            second.release();
        });
        assert_eq!(scope.retire(false).action, RetireAction::Wait);
        await_guards(&scope, None).await;
        let took = start.elapsed();
        assert!(!scope.has_active_guards());
        assert!(took >= Duration::from_millis(90), "returned after {took:?}");
        assert!(took < Duration::from_secs(5), "returned after {took:?}");
        assert_eq!(scope.retire(false).action, RetireAction::Proceed);
    });
}

#[test]
fn cooperative_timed_wait_gives_up_at_the_limit() {
    let data = String::from("x");
    let runtime = runtime();
    runtime.block_on(async {
        let policy = Policy {
            backend: Backend::Cooperative,
            teardown: Teardown::Ignore,
            unwind: Unwind::Ignore,
        };
        let scope = ScopedRef::<RefString>::with_policy(&data, policy);
        let guard = scope.new_ref();
        let start = Instant::now();
        await_guards(&scope, Some(Duration::from_millis(80))).await;
        let took = start.elapsed();
        assert!(took >= Duration::from_millis(80), "returned after {took:?}");
        assert!(took < Duration::from_millis(1000), "returned after {took:?}");
        assert!(scope.has_active_guards());
        guard.release();
    });
}

#[test]
fn no_wake_is_lost_by_waiting_tasks() {
    let data: &'static String = Box::leak(Box::new(String::from("x")));
    let runtime = runtime();
    runtime.block_on(async {
        for round in 0..200u32 {
            let scope = ScopedRef::<RefString>::new(data);
            for task in 0..4u32 {
                let guard = scope.new_ref();
                tokio::spawn(async move {
                    let copy = guard.clone();
                    guard.release();
                    for _ in 0..((round + task) % 3) {
                        tokio::task::yield_now().await;
                    }
                    copy.release();
                });
            }
            await_guards(&scope, None).await;
            assert!(!scope.has_active_guards());
        }
    });
}
