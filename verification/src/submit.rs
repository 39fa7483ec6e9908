//! Transaction submission policy: every transaction carries two
//! resource-limit directives ahead of its operations, is signed against a
//! fresh recency token per attempt, and is retried with linear backoff up
//! to a configured attempt ceiling.

use crate::types::{KeeperError, OperationCall};
use vstd::prelude::*;

verus! {

/// Submission configuration: the attempt ceiling, the linear backoff base,
/// and the two resource-limit values injected into every transaction.
#[derive(Clone, Copy, Debug, PartialEq, Eq, Structural)]
pub struct RetryPolicy {
    pub max_retries: u64,
    pub backoff_ms: u64,
    pub cu_limit: u32,
    pub cu_price_micro_lamports: u64,
}

/// A resource-limit directive prepended to a transaction.
#[derive(Clone, Copy, Debug, PartialEq, Eq, Structural)]
pub enum BudgetDirective {
    /// The priority-fee rate, in micro-lamports per compute unit.
    ComputeUnitPrice(u64),
    /// The compute-unit ceiling.
    ComputeUnitLimit(u32),
}

/// A transaction ready for the sender: the two directives, in order, ahead
/// of the caller's operations.
#[derive(Debug)]
pub struct SubmitPlan {
    pub directives: Vec<BudgetDirective>,
    pub calls: Vec<OperationCall>,
}

/// Builds the submission plan for a list of operations: exactly two
/// resource-limit directives — the priority-fee rate, then the compute-unit
/// ceiling — stand ahead of the operations, which are kept unchanged and in
/// order.
pub fn prepare_submission(policy: &RetryPolicy, calls: Vec<OperationCall>) -> (r: SubmitPlan)
    ensures
        r.directives@ == seq![
            BudgetDirective::ComputeUnitPrice(policy.cu_price_micro_lamports),
            BudgetDirective::ComputeUnitLimit(policy.cu_limit),
        ],
        r.calls@ == calls@,
{
    let mut directives: Vec<BudgetDirective> = Vec::new();
    directives.push(BudgetDirective::ComputeUnitPrice(policy.cu_price_micro_lamports));
    directives.push(BudgetDirective::ComputeUnitLimit(policy.cu_limit));
    proof {
        assert(directives@ =~= seq![
            BudgetDirective::ComputeUnitPrice(policy.cu_price_micro_lamports),
            BudgetDirective::ComputeUnitLimit(policy.cu_limit),
        ]);
    }
    SubmitPlan { directives, calls }
}

/// What one send-and-confirm attempt came back with.
#[derive(Clone, Debug)]
pub enum AttemptOutcome {
    /// The transaction confirmed, with its signature.
    Confirmed(String),
    /// The attempt failed, with the error text.
    Failed(String),
}

/// What the submitter does after an attempt.
#[derive(Clone, Debug)]
pub enum SubmitDecision {
    /// Return this signature.
    Done(String),
    /// Sleep this many milliseconds, then try again with a fresh recency
    /// token.
    RetryAfter(u64),
    /// Sleep this many milliseconds, then fail: the attempt ceiling is
    /// reached.
    GiveUp { backoff_ms: u64, last_error: String },
}

/// The linear backoff after a failed attempt: `attempt` times the base,
/// saturating at the largest representable duration.
pub open spec fn spec_backoff(base: u64, attempt: int) -> u64 {
    if base * attempt > u64::MAX {
        u64::MAX as u64
    } else {
        (base * attempt) as u64
    }
}

/// Computes the backoff after a failed attempt.
pub fn backoff_after(policy: &RetryPolicy, attempt: u64) -> (r: u64)
    ensures
        r == spec_backoff(policy.backoff_ms, attempt as int),
{
    match policy.backoff_ms.checked_mul(attempt) {
        Some(v) => v,
        None => u64::MAX,
    }
}

/// Decides the submitter's next step from one attempt's outcome: success
/// returns immediately; a failure before the ceiling retries after
/// `attempt` times the backoff base; a failure at the ceiling gives up
/// after one final backoff.
pub fn submit_decision(policy: &RetryPolicy, attempt: u64, outcome: AttemptOutcome) -> (r:
    SubmitDecision)
    requires
        1 <= attempt <= policy.max_retries,
    ensures
        (match outcome {
            AttemptOutcome::Confirmed(sig) => r == SubmitDecision::Done(sig),
            AttemptOutcome::Failed(e) => {
                if attempt < policy.max_retries {
                    r == SubmitDecision::RetryAfter(
                        spec_backoff(policy.backoff_ms, attempt as int),
                    )
                } else {
                    r == (SubmitDecision::GiveUp {
                        backoff_ms: spec_backoff(policy.backoff_ms, attempt as int),
                        last_error: e,
                    })
                }
            },
        }),
{
    match outcome {
        AttemptOutcome::Confirmed(sig) => SubmitDecision::Done(sig),
        AttemptOutcome::Failed(e) => {
            let backoff = backoff_after(policy, attempt);
            if attempt < policy.max_retries {
                SubmitDecision::RetryAfter(backoff)
            } else {
                SubmitDecision::GiveUp { backoff_ms: backoff, last_error: e }
            }
        },
    }
}

/// What a whole submission run did: its result, how many attempts it made,
/// and the backoffs it slept, in order.
#[derive(Debug)]
pub struct SubmissionTrace {
    pub result: Result<String, KeeperError>,
    pub attempts_used: u64,
    pub backoffs_ms: Vec<u64>,
}

/// No attempt before `k` confirmed.
pub open spec fn all_failed_before(outs: Seq<AttemptOutcome>, k: int) -> bool {
    forall|j: int| 0 <= j < k ==> !(#[trigger] outs[j] is Confirmed)
}

/// The backoffs of `k` consecutive failures: base, twice the base, up to
/// `k` times the base.
pub open spec fn spec_backoff_seq(base: u64, k: int) -> Seq<u64> {
    Seq::new(k as nat, |i: int| spec_backoff(base, i + 1))
}

/// Runs the retry loop over the outcomes the sender would produce, one per
/// prospective attempt. Returns at the first confirmed attempt; otherwise
/// exhausts the ceiling and fails with `RetriesExhausted` carrying the last
/// error, never making another attempt.
pub fn run_submission(policy: &RetryPolicy, outcomes: &Vec<AttemptOutcome>) -> (r: SubmissionTrace)
    requires
        outcomes@.len() == policy.max_retries,
    ensures
        forall|k: int|
            0 <= k < outcomes@.len() && outcomes@[k] is Confirmed && all_failed_before(
                outcomes@,
                k,
            ) ==> {
                &&& r.result matches Ok(s) && s@ == outcomes@[k]->Confirmed_0@
                &&& r.attempts_used == k + 1
                &&& r.backoffs_ms@ == spec_backoff_seq(policy.backoff_ms, k)
            },
        all_failed_before(outcomes@, outcomes@.len() as int) ==> {
            &&& r.result matches Err(e) && e matches KeeperError::RetriesExhausted {
                last_error,
            } && (if outcomes@.len() == 0 {
                last_error is None
            } else {
                last_error matches Some(t) && t@ == outcomes@[outcomes@.len() - 1]->Failed_0@
            })
            &&& r.attempts_used == outcomes@.len()
            &&& r.backoffs_ms@ == spec_backoff_seq(policy.backoff_ms, outcomes@.len() as int)
        },
{
    let mut backoffs_ms: Vec<u64> = Vec::new();
    let mut last_error: Option<String> = None;
    let n: usize = outcomes.len();
    let mut i: usize = 0;
    while i < n
        invariant
            i <= n,
            n == outcomes@.len(),
            n == policy.max_retries,
            all_failed_before(outcomes@, i as int),
            backoffs_ms@ == spec_backoff_seq(policy.backoff_ms, i as int),
            (if i == 0 {
                last_error is None
            } else {
                last_error matches Some(t) && t@ == outcomes@[i - 1]->Failed_0@
            }),
        decreases n - i,
    {
        let attempt: u64 = (i as u64) + 1;
        let outcome = match &outcomes[i] {
            AttemptOutcome::Confirmed(s) => AttemptOutcome::Confirmed(s.clone()),
            AttemptOutcome::Failed(e) => AttemptOutcome::Failed(e.clone()),
        };
        match submit_decision(policy, attempt, outcome) {
            SubmitDecision::Done(sig) => {
                return SubmissionTrace {
                    result: Ok(sig),
                    attempts_used: attempt,
                    backoffs_ms,
                };
            },
            SubmitDecision::RetryAfter(b) => {
                backoffs_ms.push(b);
                last_error = match &outcomes[i] {
                    AttemptOutcome::Failed(e) => Some(e.clone()),
                    AttemptOutcome::Confirmed(s) => None,
                };
                proof {
                    assert(backoffs_ms@ =~= spec_backoff_seq(policy.backoff_ms, i + 1 as int));
                }
            },
            SubmitDecision::GiveUp { backoff_ms: b, last_error: e } => {
                backoffs_ms.push(b);
                last_error = Some(e);
                proof {
                    assert(backoffs_ms@ =~= spec_backoff_seq(policy.backoff_ms, i + 1 as int));
                }
            },
        }
        i = i + 1;
    }
    SubmissionTrace {
        result: Err(KeeperError::RetriesExhausted { last_error }),
        attempts_used: i as u64,
        backoffs_ms,
    }
}

/// The backoffs of a run with `k` failures strictly increase, provided the
/// base is at least one millisecond and the largest backoff does not
/// saturate.
pub proof fn lemma_backoffs_strictly_increase(base: u64, k: int)
    requires
        base >= 1,
        base * k <= u64::MAX,
    ensures
        forall|i: int, j: int|
            0 <= i < j < k ==> #[trigger] spec_backoff_seq(base, k)[i]
                < #[trigger] spec_backoff_seq(base, k)[j],
{
    assert forall|i: int, j: int|
        0 <= i < j < k implies #[trigger] spec_backoff_seq(base, k)[i] < #[trigger] spec_backoff_seq(
        base,
        k,
    )[j] by {
        assert(base * (i + 1) < base * (j + 1) <= base * k) by (nonlinear_arith)
            requires
                base >= 1,
                0 <= i < j < k,
        ;
    }
}

} // verus!
