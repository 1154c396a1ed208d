//! The retry/backoff discipline that wraps every network exchange.
//!
//! A network action is modelled by the sequence of outcomes it would produce
//! on successive attempts. The engine runs the action up to a bounded number
//! of attempts, sleeping a doubling delay before each retry and never before
//! the first attempt; it stops at the first success and, on exhaustion,
//! returns the error of the final attempt verbatim.

use vstd::prelude::*;

use crate::errors::CoreError;

verus! {

/// Backoff policy: at most `max_attempts` attempts in all, with a delay of
/// `base_delay` time units before the second attempt, doubling before each
/// further one.
#[derive(Clone, Copy, Debug)]
pub struct RetryPolicy {
    pub max_attempts: u64,
    pub base_delay: u64,
}

/// The platform's policy: four attempts in all, delays of 1, 2 and 4 time
/// units between them.
pub open spec fn standard_policy() -> RetryPolicy {
    RetryPolicy { max_attempts: 4, base_delay: 1 }
}

impl RetryPolicy {
    /// Bounds under which every delay sum fits comfortably in a `u64`.
    pub open spec fn wf(self) -> bool {
        &&& 1 <= self.max_attempts <= 16
        &&& 1 <= self.base_delay <= 3600
    }

    pub fn standard() -> (r: RetryPolicy)
        ensures
            r == standard_policy(),
            r.wf(),
    {
        RetryPolicy { max_attempts: 4, base_delay: 1 }
    }

    /// The delay slept after the `n`-th failed attempt (`n` counted from 1):
    /// `base_delay` after the first failure, doubling after each further one.
    pub open spec fn delay_after_failure(self, n: int) -> int
        decreases n,
    {
        if n <= 1 {
            self.base_delay as int
        } else {
            2 * self.delay_after_failure(n - 1)
        }
    }

    /// The total delay slept before the `k`-th attempt starts (`k` counted
    /// from 1): nothing before the first attempt.
    pub open spec fn total_delay_before_attempt(self, k: int) -> int
        decreases k,
    {
        if k <= 1 {
            0
        } else {
            self.total_delay_before_attempt(k - 1) + self.delay_after_failure(k - 1)
        }
    }
}

/// Powers of two, for the closed form of the doubling backoff.
spec fn pow2(n: int) -> int
    decreases n,
{
    if n <= 0 {
        1
    } else {
        2 * pow2(n - 1)
    }
}

proof fn lemma_pow2_monotone(a: int, b: int)
    requires
        0 <= a <= b,
    ensures
        1 <= pow2(a) <= pow2(b),
    decreases b,
{
    if b > 0 {
        if a == b {
            lemma_pow2_monotone(0, b - 1);
        } else {
            lemma_pow2_monotone(a, b - 1);
        }
    }
}

/// Closed form of the backoff: the `n`-th gap is `base * 2^(n-1)` and the
/// sleeping done before attempt `k` totals `base * (2^(k-1) - 1)`.
proof fn lemma_delay_closed_form(policy: RetryPolicy, k: int)
    requires
        1 <= k,
    ensures
        policy.delay_after_failure(k) == policy.base_delay as int * pow2(k - 1),
        policy.total_delay_before_attempt(k) == policy.base_delay as int * (pow2(k - 1) - 1),
    decreases k,
{
    let b = policy.base_delay as int;
    if k == 1 {
        assert(policy.delay_after_failure(1) == b);
        assert(b * pow2(0) == b) by (nonlinear_arith);
        assert(b * (pow2(0) - 1) == 0) by (nonlinear_arith);
    } else {
        lemma_delay_closed_form(policy, k - 1);
        assert(2 * (b * pow2(k - 2)) == b * (2 * pow2(k - 2))) by (nonlinear_arith);
        assert(b * (pow2(k - 2) - 1) + b * pow2(k - 2) == b * (2 * pow2(k - 2) - 1))
            by (nonlinear_arith);
    }
}

/// Both delay quantities stay small for a well-formed policy, so the running
/// sums below never overflow.
proof fn lemma_delay_bounds(policy: RetryPolicy, k: int)
    requires
        policy.wf(),
        1 <= k <= 16,
    ensures
        policy.base_delay <= policy.delay_after_failure(k) <= policy.base_delay as int * 0x8000,
        0 <= policy.total_delay_before_attempt(k) <= policy.base_delay as int * 0x10000,
{
    let b = policy.base_delay as int;
    lemma_delay_closed_form(policy, k);
    lemma_pow2_monotone(0, k - 1);
    lemma_pow2_monotone(k - 1, 15);
    assert(pow2(15) == 0x8000) by {
        reveal_with_fuel(pow2, 17);
    }
    assert(b * 1 <= b * pow2(k - 1) <= b * 0x8000) by (nonlinear_arith)
        requires
            1 <= b,
            1 <= pow2(k - 1) <= 0x8000,
    ;
    assert(0 <= b * (pow2(k - 1) - 1) <= b * 0x10000) by (nonlinear_arith)
        requires
            1 <= b,
            1 <= pow2(k - 1) <= 0x8000,
    ;
}

/// What the engine returns, and how long it sleeps in all, when the action's
/// successive outcomes are `outs` and the engine stands before attempt `k`.
/// The first component is the outcome handed back, the second the delay
/// still to be slept.
pub open spec fn run_from(
    policy: RetryPolicy,
    outs: Seq<Result<String, CoreError>>,
    k: int,
) -> (Result<String, CoreError>, int)
    decreases policy.max_attempts - k,
{
    let out = outs[k - 1];
    if out is Ok || k >= policy.max_attempts {
        (out, 0)
    } else {
        let rest = run_from(policy, outs, k + 1);
        (rest.0, policy.delay_after_failure(k) + rest.1)
    }
}

/// The outcome the engine hands back for an action with outcomes `outs`.
pub open spec fn retry_result(policy: RetryPolicy, outs: Seq<Result<String, CoreError>>) -> Result<
    String,
    CoreError,
> {
    run_from(policy, outs, 1).0
}

/// The total delay the engine sleeps for an action with outcomes `outs`.
pub open spec fn retry_delay(policy: RetryPolicy, outs: Seq<Result<String, CoreError>>) -> int {
    run_from(policy, outs, 1).1
}

/// Runs the retry engine against an action modelled by its outcome sequence:
/// `outcomes[i]` is what the action would return on attempt `i + 1`. Returns
/// the outcome handed back together with the total delay slept.
#[verifier::loop_isolation(false)]
pub fn run_retry(policy: RetryPolicy, outcomes: Vec<Result<String, CoreError>>) -> (r: (
    Result<String, CoreError>,
    u64,
))
    requires
        policy.wf(),
        outcomes@.len() >= policy.max_attempts,
    ensures
        r.0 == retry_result(policy, outcomes@),
        r.1 == retry_delay(policy, outcomes@),
{
    let ghost all = outcomes@;
    let mut rest = outcomes;
    let mut k: u64 = 1;
    let mut slept: u64 = 0;
    let mut delay: u64 = policy.base_delay;
    loop
        invariant
            policy.wf(),
            all.len() >= policy.max_attempts,
            1 <= k <= policy.max_attempts,
            rest@ == all.subrange(k - 1, all.len() as int),
            slept == policy.total_delay_before_attempt(k as int),
            delay == policy.delay_after_failure(k as int),
            run_from(policy, all, 1).0 == run_from(policy, all, k as int).0,
            run_from(policy, all, 1).1 == slept + run_from(policy, all, k as int).1,
        decreases policy.max_attempts - k,
    {
        let out = rest.remove(0);
        assert(out == all[k - 1]);
        if out.is_ok() || k == policy.max_attempts {
            assert(run_from(policy, all, k as int) == (out, 0int));
            return (out, slept);
        }
        proof {
            lemma_delay_bounds(policy, k as int);
            lemma_delay_bounds(policy, k + 1 as int);
            assert(run_from(policy, all, k as int).0 == run_from(policy, all, k + 1 as int).0);
            assert(run_from(policy, all, k as int).1 == policy.delay_after_failure(k as int)
                + run_from(policy, all, k + 1 as int).1);
        }
        slept = slept + delay;
        delay = delay * 2;
        k = k + 1;
        assert(rest@ =~= all.subrange(k - 1, all.len() as int));
    }
}

proof fn lemma_run_from_reaches_attempt(
    policy: RetryPolicy,
    outs: Seq<Result<String, CoreError>>,
    j: int,
    a: int,
)
    requires
        policy.wf(),
        outs.len() >= policy.max_attempts,
        1 <= j <= a <= policy.max_attempts,
        outs[a - 1] is Ok || a == policy.max_attempts,
        forall|i: int| j - 1 <= i < a - 1 ==> outs[i] is Err,
    ensures
        run_from(policy, outs, j).0 == outs[a - 1],
        run_from(policy, outs, j).1 == policy.total_delay_before_attempt(a)
            - policy.total_delay_before_attempt(j),
    decreases a - j,
{
    if j < a {
        assert(outs[j - 1] is Err);
        lemma_run_from_reaches_attempt(policy, outs, j + 1, a);
    }
}

/// Law: the engine returns the first success within the attempt budget,
/// having slept exactly the backoff gaps before it.
pub proof fn lemma_first_success_is_returned(
    policy: RetryPolicy,
    outs: Seq<Result<String, CoreError>>,
    a: int,
)
    requires
        policy.wf(),
        outs.len() >= policy.max_attempts,
        1 <= a <= policy.max_attempts,
        outs[a - 1] is Ok,
        forall|i: int| 0 <= i < a - 1 ==> outs[i] is Err,
    ensures
        retry_result(policy, outs) == outs[a - 1],
        retry_delay(policy, outs) == policy.total_delay_before_attempt(a),
{
    lemma_run_from_reaches_attempt(policy, outs, 1, a);
}

/// Law: an action that fails on every attempt within the budget is given
/// up, and the error of the final attempt is handed back verbatim.
pub proof fn lemma_exhaustion_returns_final_error_for(
    policy: RetryPolicy,
    outs: Seq<Result<String, CoreError>>,
)
    requires
        policy.wf(),
        outs.len() >= policy.max_attempts,
        forall|i: int| 0 <= i < policy.max_attempts ==> outs[i] is Err,
    ensures
        retry_result(policy, outs) == outs[policy.max_attempts - 1],
        retry_delay(policy, outs) == policy.total_delay_before_attempt(
            policy.max_attempts as int,
        ),
{
    lemma_run_from_reaches_attempt(policy, outs, 1, policy.max_attempts as int);
}

/// Law: an action that fails on the first three attempts and succeeds on the
/// fourth yields that success under the standard policy, after delays
/// totalling 1 + 2 + 4 time units.
pub proof fn lemma_success_on_fourth_attempt(outs: Seq<Result<String, CoreError>>)
    requires
        outs.len() >= 4,
        outs[0] is Err,
        outs[1] is Err,
        outs[2] is Err,
        outs[3] is Ok,
    ensures
        retry_result(standard_policy(), outs) == outs[3],
        retry_delay(standard_policy(), outs) == 7,
{
    reveal_with_fuel(RetryPolicy::delay_after_failure, 4);
    assert(run_from(standard_policy(), outs, 4).0 == outs[3]);
    assert(run_from(standard_policy(), outs, 3).1 == 4);
    assert(run_from(standard_policy(), outs, 2).1 == 2 + 4);
    assert(run_from(standard_policy(), outs, 1).1 == 1 + 2 + 4);
}

/// Law: an action that fails on every attempt is given up after the fourth
/// attempt under the standard policy, and the error of that final attempt is
/// handed back verbatim, never an earlier one.
pub proof fn lemma_exhaustion_returns_final_error(outs: Seq<Result<String, CoreError>>)
    requires
        outs.len() >= 4,
        forall|i: int| 0 <= i < 4 ==> outs[i] is Err,
    ensures
        retry_result(standard_policy(), outs) == outs[3],
{
    assert(outs[0] is Err && outs[1] is Err && outs[2] is Err && outs[3] is Err);
    let p = standard_policy();
    assert(run_from(p, outs, 4).0 == outs[3]);
    assert(run_from(p, outs, 3).0 == run_from(p, outs, 4).0);
    assert(run_from(p, outs, 2).0 == run_from(p, outs, 3).0);
    assert(run_from(p, outs, 1).0 == run_from(p, outs, 2).0);
}

/// Law: an action that succeeds at once is never retried and nothing is
/// slept.
pub proof fn lemma_immediate_success_sleeps_nothing(
    policy: RetryPolicy,
    outs: Seq<Result<String, CoreError>>,
)
    requires
        policy.wf(),
        outs.len() >= policy.max_attempts,
        outs[0] is Ok,
    ensures
        retry_result(policy, outs) == outs[0],
        retry_delay(policy, outs) == 0,
{
}

/// The log line recorded before one more attempt: the delay about to be
/// slept and the error that caused the retry. Failures to write it are the
/// log sink's affair and never reach the caller.
pub fn retry_log_line(delay: u64, error: &str) -> (r: String)
    ensures
        r@ == "🔁 Повтор запроса через "@ + crate::encode::dec_rep(delay as int)
            + " сек (ошибка: "@ + error@ + ")"@,
{
    let mut out = String::new();
    out.append("🔁 Повтор запроса через ");
    crate::encode::push_u64_dec(&mut out, delay);
    out.append(" сек (ошибка: ");
    out.append(error);
    out.append(")");
    assert(out@ =~= "🔁 Повтор запроса через "@ + crate::encode::dec_rep(
        delay as int,
    ) + " сек (ошибка: "@ + error@ + ")"@);
    out
}

/// The incremental face of the engine, for a caller that performs the
/// attempts itself: it reports each failure and is told whether to sleep and
/// retry or to give up.
pub struct RetryState {
    pub policy: RetryPolicy,
    pub failures: u64,
}

impl RetryState {
    pub open spec fn wf(self) -> bool {
        &&& self.policy.wf()
        &&& self.failures <= self.policy.max_attempts
    }

    pub fn new(policy: RetryPolicy) -> (r: RetryState)
        requires
            policy.wf(),
        ensures
            r.wf(),
            r.policy == policy,
            r.failures == 0,
    {
        RetryState { policy, failures: 0 }
    }

    /// Records one failed attempt. Returns the delay to sleep before the next
    /// attempt, or `None` once the attempts are exhausted.
    pub fn on_failure(&mut self) -> (r: Option<u64>)
        requires
            old(self).wf(),
            old(self).failures < old(self).policy.max_attempts,
        ensures
            final(self).wf(),
            final(self).policy == old(self).policy,
            final(self).failures == old(self).failures + 1,
            if old(self).failures + 1 < old(self).policy.max_attempts {
                r == Some(
                    old(self).policy.delay_after_failure(old(self).failures + 1) as u64,
                )
            } else {
                r is None
            },
    {
        self.failures = self.failures + 1;
        if self.failures == self.policy.max_attempts {
            return None;
        }
        let mut n: u64 = 1;
        let mut delay: u64 = self.policy.base_delay;
        while n < self.failures
            invariant
                self.policy.wf(),
                1 <= n <= self.failures <= 16,
                delay == self.policy.delay_after_failure(n as int),
            decreases self.failures - n,
        {
            proof {
                lemma_delay_bounds(self.policy, n as int);
            }
            delay = delay * 2;
            n = n + 1;
        }
        Some(delay)
    }
}

} // verus!
