//! Retry decisions for a single idempotent RPC invocation.
//!
//! The caller performs the attempts (network calls, backoff sleeps) and feeds
//! each outcome to a [`RetryState`]; the state machine decides whether to
//! re-attempt or to stop, and with which final result. On success the response
//! is returned untouched; on a non-retryable failure, or once the policy's
//! attempt limit is reached, the last error is surfaced unchanged.

use vstd::prelude::*;

use crate::status::Status;
use crate::status::StatusCode;

verus! {

/// A retry policy: how many attempts may be made in total, and which status
/// codes count as retryable. Backoff timing is owned by the caller driving
/// the attempts, not by this classification.
#[derive(Clone, Debug)]
pub struct RetryPolicy {
    /// Total number of attempts allowed, including the first; at least 1.
    pub max_attempts: u64,
    /// Status codes after which another attempt may be made.
    pub retryable_codes: Vec<StatusCode>,
}

impl RetryPolicy {
    /// A policy is meaningful only if it allows at least one attempt.
    pub open spec fn wf(self) -> bool {
        self.max_attempts >= 1
    }

    /// Whether the policy classifies `code` as retryable.
    pub open spec fn spec_retryable(self, code: StatusCode) -> bool {
        self.retryable_codes@.contains(code)
    }

    /// Executable classification, equal to [`Self::spec_retryable`].
    pub fn is_retryable(&self, code: StatusCode) -> (r: bool)
        ensures
            r == self.spec_retryable(code),
    {
        let mut i: usize = 0;
        while i < self.retryable_codes.len()
            invariant
                i <= self.retryable_codes.len(),
                forall|j: int| 0 <= j < i ==> self.retryable_codes@[j] != code,
            decreases self.retryable_codes.len() - i,
        {
            if self.retryable_codes[i] == code {
                return true;
            }
            i = i + 1;
        }
        false
    }

    /// The policy applied when a caller supplies none: a handful of attempts,
    /// retrying only on the transient service conditions.
    pub fn default_policy() -> (r: RetryPolicy)
        ensures
            r.max_attempts == 5,
            r.retryable_codes@ =~= seq![StatusCode::Unavailable],
            r.wf(),
    {
        let mut codes: Vec<StatusCode> = Vec::new();
        codes.push(StatusCode::Unavailable);
        RetryPolicy { max_attempts: 5, retryable_codes: codes }
    }

    /// Resolves an optional caller-supplied policy against the default, as
    /// every client method does before its first attempt.
    pub fn resolve(policy: Option<RetryPolicy>) -> (r: RetryPolicy)
        ensures
            policy is Some ==> r == policy->0,
            policy is None ==> r.max_attempts == 5
                && r.retryable_codes@ =~= seq![StatusCode::Unavailable],
    {
        match policy {
            Some(p) => p,
            None => RetryPolicy::default_policy(),
        }
    }
}

/// What the driver must do after reporting one attempt's outcome.
pub enum RetryStep<R> {
    /// Stop: this is the final result, surfaced to the caller.
    Done(Result<R, Status>),
    /// Make another attempt and report its outcome next.
    RetryAgain,
}

/// The verdict on one outcome, given how many attempts came before it.
/// A success ends the call with that response; a failure is retried exactly
/// when its code is retryable and the policy still allows another attempt.
pub open spec fn spec_step<R>(
    policy: RetryPolicy,
    attempts_before: nat,
    outcome: Result<R, Status>,
) -> RetryStep<R> {
    match outcome {
        Ok(r) => RetryStep::Done(Ok(r)),
        Err(e) => if policy.spec_retryable(e.code) && attempts_before + 1 < policy.max_attempts {
            RetryStep::RetryAgain
        } else {
            RetryStep::Done(Err(e))
        },
    }
}

/// The final result of a whole retried call, replayed over a sequence of
/// attempt outcomes: `None` if the outcomes ran out before a verdict was
/// reached, otherwise the first `Done` verdict.
pub open spec fn spec_retry_result<R>(
    policy: RetryPolicy,
    attempts_before: nat,
    outcomes: Seq<Result<R, Status>>,
) -> Option<Result<R, Status>>
    decreases outcomes.len(),
{
    if outcomes.len() == 0 {
        None
    } else {
        match spec_step(policy, attempts_before, outcomes[0]) {
            RetryStep::Done(res) => Some(res),
            RetryStep::RetryAgain => spec_retry_result(
                policy,
                attempts_before + 1,
                outcomes.drop_first(),
            ),
        }
    }
}

/// Tracks one retried call: the policy and how many attempts have completed.
pub struct RetryState {
    policy: RetryPolicy,
    attempts: u64,
}

impl RetryState {
    /// The policy this call runs under.
    pub closed spec fn policy(self) -> RetryPolicy {
        self.policy
    }

    /// How many attempts have been reported so far.
    pub closed spec fn attempts(self) -> nat {
        self.attempts as nat
    }

    /// The state stays within the policy's attempt budget.
    pub open spec fn wf(self) -> bool {
        self.policy().wf() && self.attempts() <= self.policy().max_attempts
    }

    /// Whether the policy allows one more attempt to be made.
    pub open spec fn may_attempt(self) -> bool {
        self.attempts() < self.policy().max_attempts
    }

    /// Begins a retried call: no attempts made yet.
    pub fn new(policy: RetryPolicy) -> (r: RetryState)
        requires
            policy.wf(),
        ensures
            r.policy() == policy,
            r.attempts() == 0,
            r.wf(),
            r.may_attempt(),
    {
        RetryState { policy, attempts: 0 }
    }

    /// Takes one attempt's outcome and decides what follows: another attempt,
    /// or stopping with the final result, as [`spec_step`] says.
    pub fn on_outcome<R>(&mut self, outcome: Result<R, Status>) -> (step: RetryStep<R>)
        requires
            old(self).wf(),
            old(self).may_attempt(),
        ensures
            final(self).wf(),
            final(self).policy() == old(self).policy(),
            final(self).attempts() == old(self).attempts() + 1,
            step == spec_step(old(self).policy(), old(self).attempts(), outcome),
            (step matches RetryStep::RetryAgain) ==> final(self).may_attempt(),
    {
        self.attempts = self.attempts + 1;
        match outcome {
            Ok(r) => RetryStep::Done(Ok(r)),
            Err(e) => {
                if self.policy.is_retryable(e.code) && self.attempts < self.policy.max_attempts {
                    RetryStep::RetryAgain
                } else {
                    RetryStep::Done(Err(e))
                }
            },
        }
    }
}

/// Law: a retryable failure followed by a success ends the call with exactly
/// that success value, within two attempts.
pub proof fn lemma_retry_then_success<R>(policy: RetryPolicy, e: Status, r: R)
    requires
        policy.wf(),
        policy.max_attempts >= 2,
        policy.spec_retryable(e.code),
    ensures
        spec_retry_result(policy, 0, seq![Err::<R, Status>(e), Ok::<R, Status>(r)])
            == Some(Ok::<R, Status>(r)),
{
    let outcomes = seq![Err::<R, Status>(e), Ok::<R, Status>(r)];
    let tail = outcomes.drop_first();
    assert(tail =~= seq![Ok::<R, Status>(r)]);
    assert(spec_step(policy, 0, outcomes[0]) == RetryStep::RetryAgain::<R>);
    assert(spec_retry_result(policy, 1, tail) == Some(Ok::<R, Status>(r))) by {
        assert(spec_step(policy, 1, tail[0]) == RetryStep::Done(Ok::<R, Status>(r)));
    };
}

/// Law: if every attempt up to the policy's limit fails, and the failures
/// before the last are retryable (so the loop does run to the limit), the
/// call surfaces the last attempt's error unchanged. A retryable code on the
/// final attempt no longer helps: the budget is spent.
pub proof fn lemma_exhausted_surfaces_last_error<R>(
    policy: RetryPolicy,
    attempts_before: nat,
    outcomes: Seq<Result<R, Status>>,
)
    requires
        policy.wf(),
        outcomes.len() >= 1,
        attempts_before + outcomes.len() == policy.max_attempts,
        forall|i: int| 0 <= i < outcomes.len() ==> (#[trigger] outcomes[i]) is Err,
        forall|i: int| 0 <= i < outcomes.len() - 1
            ==> policy.spec_retryable((#[trigger] outcomes[i])->Err_0.code),
    ensures
        spec_retry_result(policy, attempts_before, outcomes) == Some(outcomes.last()),
    decreases outcomes.len(),
{
    assert(outcomes[0] is Err);
    if outcomes.len() == 1 {
        assert(spec_step(policy, attempts_before, outcomes[0])
            == RetryStep::Done(Err::<R, Status>(outcomes[0]->Err_0)));
    } else {
        assert(policy.spec_retryable(outcomes[0]->Err_0.code));
        assert(spec_step(policy, attempts_before, outcomes[0]) == RetryStep::RetryAgain::<R>);
        let tail = outcomes.drop_first();
        assert(forall|i: int| 0 <= i < tail.len() ==> (#[trigger] tail[i]) == outcomes[i + 1]);
        lemma_exhausted_surfaces_last_error(policy, attempts_before + 1, tail);
        assert(tail.last() == outcomes.last());
    }
}

/// Law: a decision is always reached within the policy's attempt budget —
/// replaying enough outcomes to fill the budget never runs out undecided.
pub proof fn lemma_decides_within_limit<R>(
    policy: RetryPolicy,
    attempts_before: nat,
    outcomes: Seq<Result<R, Status>>,
)
    requires
        policy.wf(),
        outcomes.len() >= 1,
        attempts_before + outcomes.len() >= policy.max_attempts,
    ensures
        spec_retry_result(policy, attempts_before, outcomes) is Some,
    decreases outcomes.len(),
{
    match spec_step(policy, attempts_before, outcomes[0]) {
        RetryStep::Done(res) => {},
        RetryStep::RetryAgain => {
            lemma_decides_within_limit(policy, attempts_before + 1, outcomes.drop_first());
        },
    }
}

} // verus!
