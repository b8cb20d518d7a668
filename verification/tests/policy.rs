//! Tests of the retry policy: the backoff schedule, the classification
//! rule, and the decision that combines them.

use gateway_ingress::backoff::Backoff;
use gateway_ingress::rpc::CallOutcome;
use gateway_ingress::rpc::Classification;
use gateway_ingress::rpc::Failure;
use gateway_ingress::rpc::RetryDecision;
use gateway_ingress::rpc::RetryError;
use gateway_ingress::rpc::StatusCode;
use gateway_ingress::rpc::classify;
use gateway_ingress::rpc::decide;
use gateway_ingress::rpc::into_backoff;

const MS: u64 = 1_000_000;

fn spec_100ms_2s_x2_1s() -> Backoff {
    Backoff {
        initial_interval: 100 * MS,
        max_interval: 2000 * MS,
        duration: 1000 * MS,
        multiplier_milli: 2000,
    }
}

#[test]
fn intervals_grow_and_cap() {
    // multiplier 2.0, cap 400ms: 100, 200, 400, 400, ...
    let spec = Backoff {
        initial_interval: 100 * MS,
        max_interval: 400 * MS,
        duration: u64::MAX,
        multiplier_milli: 2000,
    };
    let mut gen = spec.build();
    let mut previous = 0u64;
    for _ in 0..6 {
        let next = gen.next_interval(0).unwrap();
        assert!(next >= previous);
        assert!(next <= 400 * MS);
        previous = next;
    }
    assert_eq!(previous, 400 * MS);
}

#[test]
fn budget_exhaustion_returns_none() {
    let spec = spec_100ms_2s_x2_1s();
    let mut gen = spec.build();
    // Just over the 1s budget: no interval, whatever the state.
    assert_eq!(gen.next_interval(1000 * MS + 1), None);
    // At the budget exactly, an interval is still granted.
    assert_eq!(gen.next_interval(1000 * MS), Some(100 * MS));
}

#[test]
fn example_scenario_three_retries_then_give_up() {
    // BackoffSpec{initial=100ms, max=2s, multiplier=2.0, maxElapsed=1s};
    // transient failures at t=0, 150ms, 500ms yield 100ms, 200ms, 400ms;
    // a fourth failure at t=1100ms gives up.
    let spec = spec_100ms_2s_x2_1s();
    let mut gen = spec.build();
    assert_eq!(gen.next_interval(0), Some(100 * MS));
    assert_eq!(gen.next_interval(150 * MS), Some(200 * MS));
    assert_eq!(gen.next_interval(500 * MS), Some(400 * MS));
    assert_eq!(gen.next_interval(1100 * MS), None);
}

#[test]
fn second_interval_uses_multiplier_one_and_a_half() {
    let spec = Backoff {
        initial_interval: 100 * MS,
        max_interval: 2000 * MS,
        duration: 1000 * MS,
        multiplier_milli: 1500,
    };
    let mut gen = spec.build();
    assert_eq!(gen.next_interval(0), Some(100 * MS));
    assert_eq!(gen.next_interval(1), Some(150 * MS));
}

#[test]
fn classify_permanent_set() {
    assert_eq!(classify(StatusCode::Internal), Classification::Permanent);
    assert_eq!(classify(StatusCode::Unknown), Classification::Permanent);
    assert_eq!(classify(StatusCode::Unavailable), Classification::Permanent);
}

#[test]
fn classify_transient_codes() {
    assert_eq!(classify(StatusCode::DeadlineExceeded), Classification::Transient);
    assert_eq!(classify(StatusCode::ResourceExhausted), Classification::Transient);
    assert_eq!(classify(StatusCode::Aborted), Classification::Transient);
    assert_eq!(classify(StatusCode::Cancelled), Classification::Transient);
    assert_eq!(classify(StatusCode::NotFound), Classification::Transient);
    assert_eq!(classify(StatusCode::Unauthenticated), Classification::Transient);
}

#[test]
fn classify_is_pure() {
    // The same code classified twice gives the same answer.
    for code in [StatusCode::Internal, StatusCode::DeadlineExceeded, StatusCode::Okay] {
        assert_eq!(classify(code), classify(code));
    }
}

#[test]
fn permanent_failure_short_circuits_on_first_attempt() {
    let spec = spec_100ms_2s_x2_1s();
    let mut gen = spec.build();
    let failure = Failure { code: StatusCode::Internal, message: String::from("boom") };
    // No time at all has elapsed, yet the decision is to give up.
    match decide(&mut gen, failure, 0) {
        RetryDecision::GiveUp(f) => {
            assert_eq!(f.code, StatusCode::Internal);
            assert_eq!(f.message, "boom");
        }
        RetryDecision::Retry(_) => panic!("a permanent failure must not be retried"),
    }
    // The schedule was not consumed.
    assert_eq!(gen.current_interval, 100 * MS);
}

#[test]
fn transient_failure_retries_with_interval() {
    let spec = spec_100ms_2s_x2_1s();
    let mut gen = spec.build();
    let failure = Failure { code: StatusCode::DeadlineExceeded, message: String::new() };
    match decide(&mut gen, failure, 0) {
        RetryDecision::Retry(after) => assert_eq!(after, 100 * MS),
        RetryDecision::GiveUp(_) => panic!("a transient failure within budget is retried"),
    }
}

#[test]
fn transient_failure_out_of_budget_gives_up() {
    let spec = spec_100ms_2s_x2_1s();
    let mut gen = spec.build();
    let failure = Failure { code: StatusCode::DeadlineExceeded, message: String::new() };
    match decide(&mut gen, failure, 1000 * MS + 1) {
        RetryDecision::GiveUp(f) => assert_eq!(f.code, StatusCode::DeadlineExceeded),
        RetryDecision::Retry(_) => panic!("the budget was exhausted"),
    }
}

#[test]
fn into_backoff_success_passes_value() {
    let outcome: CallOutcome<u32> = CallOutcome::Success(7);
    assert_eq!(into_backoff(outcome).unwrap(), 7);
}

#[test]
fn into_backoff_wraps_by_classification() {
    let permanent: CallOutcome<u32> =
        CallOutcome::Failure(Failure { code: StatusCode::Unavailable, message: String::new() });
    match into_backoff(permanent) {
        Err(RetryError::Permanent(f)) => assert_eq!(f.code, StatusCode::Unavailable),
        _ => panic!("unavailable is in the permanent set"),
    }
    let transient: CallOutcome<u32> =
        CallOutcome::Failure(Failure { code: StatusCode::Aborted, message: String::new() });
    match into_backoff(transient) {
        Err(RetryError::Transient(f)) => assert_eq!(f.code, StatusCode::Aborted),
        _ => panic!("aborted is retryable"),
    }
}
