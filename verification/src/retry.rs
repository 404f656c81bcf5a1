//! The bounded-retry-with-recovery combinator.
//!
//! A [`RetryPolicy`] allows `max_attempts` recoveries: the worst case runs
//! `max_attempts + 1` attempts in all. The engine is a state machine,
//! [`RetryExecutor`]: the caller runs one attempt, feeds its outcome to
//! [`RetryExecutor::observe`], and obeys the returned [`RetryDecision`] —
//! either return the terminal result, or run the recovery hook (rotate the
//! failover cursor, refresh the connection), wait the policy delay, and try
//! again. Recovery is decided only for a recoverable (`Unavailable`) error
//! with recovery budget left; in particular neither the hook nor the delay
//! ever runs after the final attempt.
//!
//! The spec functions [`run_result`] and [`failures_taken`] say what a whole
//! run of the machine returns and how often the recovery hook runs, given
//! the sequence of attempt outcomes; [`execute`] drives the machine over a
//! pre-recorded outcome sequence and is proved to realize exactly that.

use crate::cursor::{index_after_advances, lemma_advance_step, FailoverCursor};
use crate::errors::{is_recoverable_spec, BackendError};
use vstd::arithmetic::div_mod::lemma_small_mod;
use vstd::prelude::*;

verus! {

/// A bounded-retry policy: up to `max_attempts` recoveries after the first
/// attempt, with a fixed delay between attempts. Which errors are
/// recoverable is the classification of [`crate::errors::is_recoverable`].
#[derive(Debug, Clone, Copy, PartialEq, Eq, Structural)]
pub struct RetryPolicy {
    /// How many times a failed attempt may be retried. The total number of
    /// attempts is at most `max_attempts + 1`.
    pub max_attempts: u32,
    /// How long to wait between a recovery and the next attempt.
    pub delay_ms: u64,
}

/// What the caller of the retry engine must do next.
#[derive(Debug, PartialEq, Eq)]
pub enum RetryDecision<T> {
    /// The run is over: hand this result to the caller.
    Done(Result<T, BackendError>),
    /// Run the recovery hook for this error, wait the policy delay, and
    /// feed the outcome of the next attempt back in.
    Retry(BackendError),
}

/// The number of failed attempts a run consumes before its terminal
/// attempt, given the outcomes the attempts would produce: it walks the
/// outcomes while they are recoverable failures and recovery budget
/// remains. This equals the number of times the recovery hook runs.
pub open spec fn failures_taken<T>(max: nat, outcomes: Seq<Result<T, BackendError>>) -> nat
    decreases outcomes.len(),
{
    if outcomes.len() == 0 {
        0
    } else {
        match outcomes[0] {
            Ok(_) => 0,
            Err(e) => if is_recoverable_spec(e) && max > 0 {
                1 + failures_taken((max - 1) as nat, outcomes.skip(1))
            } else {
                0
            },
        }
    }
}

/// The number of attempts a run makes: every consumed failure plus the one
/// terminal attempt.
pub open spec fn attempts_used<T>(max: nat, outcomes: Seq<Result<T, BackendError>>) -> nat {
    failures_taken(max, outcomes) + 1
}

/// The terminal result of a run: the first success, or the first
/// non-recoverable error, or the error of the attempt that exhausts the
/// recovery budget — whichever comes first.
pub open spec fn run_result<T>(max: nat, outcomes: Seq<Result<T, BackendError>>) -> Result<
    T,
    BackendError,
>
    decreases outcomes.len(),
{
    if outcomes.len() == 0 {
        arbitrary()
    } else {
        match outcomes[0] {
            Ok(v) => Ok(v),
            Err(e) => if is_recoverable_spec(e) && max > 0 {
                run_result((max - 1) as nat, outcomes.skip(1))
            } else {
                Err(e)
            },
        }
    }
}

/// The retry engine's state: its immutable policy and how many failed
/// attempts it has consumed so far.
pub struct RetryExecutor {
    policy: RetryPolicy,
    failures: u32,
}

impl RetryExecutor {
    pub closed spec fn policy(&self) -> RetryPolicy {
        self.policy
    }

    /// How many failed attempts the engine has consumed (equals how many
    /// times it has told its caller to recover).
    pub closed spec fn failures(&self) -> int {
        self.failures as int
    }

    /// A fresh engine that has seen no attempt yet.
    pub fn new(policy: RetryPolicy) -> (r: RetryExecutor)
        ensures
            r.policy() == policy,
            r.failures() == 0,
    {
        RetryExecutor { policy, failures: 0 }
    }

    /// Feeds the outcome of one attempt into the engine.
    ///
    /// A success is terminal at once — the only success exit. A failure is
    /// terminal unless it is recoverable and recovery budget remains; in
    /// that case the caller is told to recover and retry, and the consumed
    /// failure is counted.
    pub fn observe<T>(&mut self, outcome: Result<T, BackendError>) -> (d: RetryDecision<T>)
        ensures
            final(self).policy() == old(self).policy(),
            outcome matches Ok(v) ==> d == RetryDecision::Done(Result::<T, BackendError>::Ok(v))
                && final(self).failures() == old(self).failures(),
            (outcome matches Err(e) && is_recoverable_spec(e) && old(self).failures() < old(self).policy().max_attempts)
                ==> d == RetryDecision::<T>::Retry(outcome->Err_0)
                && final(self).failures() == old(self).failures() + 1,
            (outcome matches Err(e) && !(is_recoverable_spec(e) && old(self).failures() < old(self).policy().max_attempts))
                ==> d == RetryDecision::Done(outcome)
                && final(self).failures() == old(self).failures(),
    {
        match outcome {
            Ok(v) => RetryDecision::Done(Ok(v)),
            Err(e) => {
                if self.failures < self.policy.max_attempts && crate::errors::is_recoverable(&e) {
                    self.failures = self.failures + 1;
                    RetryDecision::Retry(e)
                } else {
                    RetryDecision::Done(Err(e))
                }
            },
        }
    }
}

/// Drives the retry engine over a pre-recorded sequence of attempt
/// outcomes, rotating the failover cursor as its recovery hook — the purely
/// sequential heart of the retry loop, with the attempts and the delay left
/// to the caller's environment.
///
/// Returns the terminal result and the number of rotations (recovery-hook
/// runs). Only recoverable failures rotate the cursor, and the cursor ends
/// exactly `rotations` advances past where it began.
pub fn execute<T>(
    policy: RetryPolicy,
    outcomes: Vec<Result<T, BackendError>>,
    cursor: &mut FailoverCursor,
) -> (r: (Result<T, BackendError>, usize))
    requires
        old(cursor).well_formed(),
        failures_taken(policy.max_attempts as nat, outcomes@) < outcomes@.len(),
    ensures
        final(cursor).well_formed(),
        final(cursor).addresses() == old(cursor).addresses(),
        r.0 == run_result(policy.max_attempts as nat, outcomes@),
        r.1 == failures_taken(policy.max_attempts as nat, outcomes@),
        final(cursor).position() == index_after_advances(
            old(cursor).position(),
            r.1 as nat,
            old(cursor).addresses().len() as int,
        ),
{
    let ghost orig = outcomes@;
    let ghost k = policy.max_attempts as nat;
    let ghost start = cursor.position();
    let ghost n = cursor.addresses().len() as int;
    proof {
        cursor.lemma_bounds();
        lemma_small_mod(start as nat, n as nat);
    }
    let mut remaining = outcomes;
    let mut engine = RetryExecutor::new(policy);
    let mut rotations: usize = 0;
    loop
        invariant
            k == policy.max_attempts as nat,
            orig == outcomes@,
            start == old(cursor).position(),
            cursor.well_formed(),
            cursor.addresses() == old(cursor).addresses(),
            0 <= start < n,
            n == cursor.addresses().len() as int,
            engine.policy() == policy,
            engine.failures() == rotations as int,
            rotations <= k,
            failures_taken(k, orig) < orig.len(),
            rotations <= failures_taken(k, orig),
            remaining@ == orig.skip(rotations as int),
            failures_taken((k - rotations) as nat, remaining@) < remaining@.len(),
            run_result(k, orig) == run_result((k - rotations) as nat, remaining@),
            failures_taken(k, orig) == rotations + failures_taken(
                (k - rotations) as nat,
                remaining@,
            ),
            cursor.position() == index_after_advances(start, rotations as nat, n),
        decreases remaining@.len(),
    {
        let ghost pre = remaining@;
        let outcome = remaining.remove(0);
        let ghost out_spec = outcome;
        let decision = engine.observe(outcome);
        let ghost dec_spec = decision;
        match decision {
            RetryDecision::Done(result) => {
                proof {
                    if out_spec is Err {
                        let e = out_spec->Err_0;
                        if is_recoverable_spec(e) && rotations < k {
                            // then observe would have decided Retry, not Done
                            assert(dec_spec == RetryDecision::<T>::Retry(e));
                            assert(false);
                        }
                    }
                    assert(result == out_spec);
                    assert(run_result((k - rotations) as nat, pre) == out_spec);
                    assert(failures_taken((k - rotations) as nat, pre) == 0);
                }
                return (result, rotations);
            },
            RetryDecision::Retry(_) => {
                cursor.advance();
                proof {
                    lemma_advance_step(start, rotations as nat, n);
                    pre.remove_ensures(0);
                    assert(remaining@ =~= orig.skip(rotations as int + 1));
                }
                rotations = rotations + 1;
            },
        }
    }
}

/// Law: a run with a budget of `max` recoveries consumes at most `max`
/// failures, hence makes at most `max + 1` attempts; the recovery hook and
/// the delay run once per consumed failure, so neither ever runs after the
/// final attempt.
pub proof fn lemma_attempts_bounded<T>(max: nat, outcomes: Seq<Result<T, BackendError>>)
    ensures
        failures_taken(max, outcomes) <= max,
        attempts_used(max, outcomes) <= max + 1,
    decreases outcomes.len(),
{
    if outcomes.len() > 0 {
        match outcomes[0] {
            Ok(_) => {},
            Err(e) => {
                if is_recoverable_spec(e) && max > 0 {
                    lemma_attempts_bounded((max - 1) as nat, outcomes.skip(1));
                }
            },
        }
    }
}

/// Law: if the first success comes on attempt `i + 1` (zero-based outcome
/// index `i`), every earlier attempt failed recoverably, and `i` is within
/// the recovery budget, then the run's result is that success and the
/// recovery hook ran exactly `i` times.
pub proof fn lemma_success_propagates<T>(
    max: nat,
    outcomes: Seq<Result<T, BackendError>>,
    i: int,
)
    requires
        0 <= i <= max,
        i < outcomes.len(),
        outcomes[i] is Ok,
        forall|j: int| 0 <= j < i ==> outcomes[j] is Err && is_recoverable_spec(
            #[trigger] outcomes[j]->Err_0,
        ),
    ensures
        run_result(max, outcomes) == outcomes[i],
        failures_taken(max, outcomes) == i,
    decreases i,
{
    if i > 0 {
        assert(outcomes[0] is Err);
        let rest = outcomes.skip(1);
        assert forall|j: int| 0 <= j < i - 1 implies rest[j] is Err && is_recoverable_spec(
            #[trigger] rest[j]->Err_0,
        ) by {
            assert(rest[j] == outcomes[j + 1]);
        }
        assert(rest[i - 1] == outcomes[i]);
        lemma_success_propagates((max - 1) as nat, rest, i - 1);
    }
}

/// Law: if every attempt within the budget fails, with the first `max`
/// failures recoverable, then the run makes exactly `max + 1` attempts, its
/// result is the error of the last attempt, and the recovery hook ran
/// exactly `max` times.
pub proof fn lemma_exhaustion_returns_last_error<T>(
    max: nat,
    outcomes: Seq<Result<T, BackendError>>,
)
    requires
        max < outcomes.len(),
        forall|j: int| 0 <= j <= max ==> #[trigger] outcomes[j] is Err,
        forall|j: int| 0 <= j < max ==> is_recoverable_spec(#[trigger] outcomes[j]->Err_0),
    ensures
        run_result(max, outcomes) == outcomes[max as int],
        failures_taken(max, outcomes) == max,
        attempts_used(max, outcomes) == max + 1,
    decreases max,
{
    if max > 0 {
        assert(outcomes[0] is Err && is_recoverable_spec(outcomes[0]->Err_0));
        let rest = outcomes.skip(1);
        assert forall|j: int| 0 <= j <= max - 1 implies #[trigger] rest[j] is Err by {
            assert(rest[j] == outcomes[j + 1]);
        }
        assert forall|j: int| 0 <= j < max - 1 implies is_recoverable_spec(
            #[trigger] rest[j]->Err_0,
        ) by {
            assert(rest[j] == outcomes[j + 1]);
        }
        lemma_exhaustion_returns_last_error((max - 1) as nat, rest);
        assert(rest[max - 1] == outcomes[max as int]);
    }
}

/// Law: a first attempt that fails non-recoverably is terminal at once —
/// its error is the run's result and the recovery hook (so also cursor
/// rotation) never runs.
pub proof fn lemma_terminal_error_stops<T>(max: nat, outcomes: Seq<Result<T, BackendError>>)
    requires
        0 < outcomes.len(),
        outcomes[0] is Err,
        !is_recoverable_spec(outcomes[0]->Err_0),
    ensures
        run_result(max, outcomes) == outcomes[0],
        failures_taken(max, outcomes) == 0,
        attempts_used(max, outcomes) == 1,
{
}

} // verus!
