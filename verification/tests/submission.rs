use keeper::submit::{
    backoff_after, prepare_submission, run_submission, submit_decision, AttemptOutcome,
    BudgetDirective, RetryPolicy, SubmitDecision,
};
use keeper::types::{KeeperError, OperationCall};

fn policy(max_retries: u64, backoff_ms: u64) -> RetryPolicy {
    RetryPolicy { max_retries, backoff_ms, cu_limit: 600_000, cu_price_micro_lamports: 25 }
}

#[test]
fn success_on_the_last_attempt_uses_exactly_that_many_attempts() {
    let p = policy(3, 100);
    let outcomes = vec![
        AttemptOutcome::Failed(String::from("blockhash expired")),
        AttemptOutcome::Failed(String::from("node behind")),
        AttemptOutcome::Confirmed(String::from("sig-3")),
    ];
    let trace = run_submission(&p, &outcomes);
    assert_eq!(trace.result.unwrap(), "sig-3");
    assert_eq!(trace.attempts_used, 3);
    assert_eq!(trace.backoffs_ms, vec![100, 200]);
}

#[test]
fn immediate_success_sleeps_never() {
    let p = policy(5, 250);
    let outcomes = vec![
        AttemptOutcome::Confirmed(String::from("sig-1")),
        AttemptOutcome::Failed(String::from("unreached")),
        AttemptOutcome::Failed(String::from("unreached")),
        AttemptOutcome::Failed(String::from("unreached")),
        AttemptOutcome::Failed(String::from("unreached")),
    ];
    let trace = run_submission(&p, &outcomes);
    assert_eq!(trace.result.unwrap(), "sig-1");
    assert_eq!(trace.attempts_used, 1);
    assert!(trace.backoffs_ms.is_empty());
}

#[test]
fn exhausted_retries_fail_with_the_last_error_and_no_extra_attempt() {
    let p = policy(3, 100);
    let outcomes = vec![
        AttemptOutcome::Failed(String::from("first")),
        AttemptOutcome::Failed(String::from("second")),
        AttemptOutcome::Failed(String::from("third")),
    ];
    let trace = run_submission(&p, &outcomes);
    match trace.result {
        Err(KeeperError::RetriesExhausted { last_error }) => {
            assert_eq!(last_error.unwrap(), "third");
        }
        other => panic!("expected RetriesExhausted, got {:?}", other),
    }
    assert_eq!(trace.attempts_used, 3);
    assert_eq!(trace.backoffs_ms, vec![100, 200, 300]);
}

#[test]
fn zero_attempt_ceiling_fails_without_an_error() {
    let p = policy(0, 100);
    let outcomes: Vec<AttemptOutcome> = vec![];
    let trace = run_submission(&p, &outcomes);
    match trace.result {
        Err(KeeperError::RetriesExhausted { last_error }) => assert!(last_error.is_none()),
        other => panic!("expected RetriesExhausted, got {:?}", other),
    }
    assert_eq!(trace.attempts_used, 0);
}

#[test]
fn decision_retries_below_the_ceiling_and_gives_up_at_it() {
    let p = policy(3, 100);
    match submit_decision(&p, 1, AttemptOutcome::Failed(String::from("x"))) {
        SubmitDecision::RetryAfter(b) => assert_eq!(b, 100),
        other => panic!("expected a retry, got {:?}", other),
    }
    match submit_decision(&p, 2, AttemptOutcome::Failed(String::from("x"))) {
        SubmitDecision::RetryAfter(b) => assert_eq!(b, 200),
        other => panic!("expected a retry, got {:?}", other),
    }
    match submit_decision(&p, 3, AttemptOutcome::Failed(String::from("x"))) {
        SubmitDecision::GiveUp { backoff_ms, last_error } => {
            assert_eq!(backoff_ms, 300);
            assert_eq!(last_error, "x");
        }
        other => panic!("expected giving up, got {:?}", other),
    }
    match submit_decision(&p, 2, AttemptOutcome::Confirmed(String::from("sig"))) {
        SubmitDecision::Done(sig) => assert_eq!(sig, "sig"),
        other => panic!("expected done, got {:?}", other),
    }
}

#[test]
fn backoff_is_linear_and_saturates() {
    let p = policy(10, 100);
    assert_eq!(backoff_after(&p, 1), 100);
    assert_eq!(backoff_after(&p, 7), 700);
    let p = policy(10, u64::MAX);
    assert_eq!(backoff_after(&p, 2), u64::MAX);
}

#[test]
fn submission_plan_prepends_exactly_two_directives() {
    let p = policy(3, 100);
    let calls: Vec<OperationCall> = vec![];
    let plan = prepare_submission(&p, calls);
    assert_eq!(
        plan.directives,
        vec![
            BudgetDirective::ComputeUnitPrice(25),
            BudgetDirective::ComputeUnitLimit(600_000),
        ]
    );
    assert!(plan.calls.is_empty());
}
