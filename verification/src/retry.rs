//! Exponential-backoff retry policy honouring `Retry-After` hints.
//!
//! The policy only retries errors for which
//! [`SearchError::is_retryable`] holds (rate limiting, server errors and
//! anti-bot challenges). Auth, validation and client errors are returned
//! immediately.
//!
//! The retry loop itself sleeps and awaits the request, so it runs outside
//! this crate; after every failed attempt it asks [`next_step`] what to do.

use vstd::prelude::*;
use vstd::arithmetic::power2::{pow2, lemma_pow2_unfold, lemma2_to64};

use crate::error::{retryable, SearchError};
use crate::time::{Duration, MAX_NANOS};

verus! {

/// Parameters for the exponential-backoff retry loop.
#[derive(Debug, Clone, Copy)]
pub struct RetryPolicy {
    /// Maximum number of retries (total attempts = `max_retries + 1`).
    pub max_retries: u32,
    /// Initial backoff interval.
    pub base_delay: Duration,
    /// Cap applied to every computed backoff.
    pub max_delay: Duration,
}

/// The production default: 3 retries, 500 ms base, 10 s cap.
pub open spec fn is_production(p: RetryPolicy) -> bool {
    p.max_retries == 3 && p.base_delay@ == 500_000_000 && p.max_delay@ == 10_000_000_000
}

/// `policy` is the one given, or the production default when none was.
pub open spec fn retry_applied(given: Option<RetryPolicy>, policy: RetryPolicy) -> bool {
    match given {
        Some(rp) => policy == rp,
        None => is_production(policy),
    }
}

/// Largest exponent of the backoff multiplier (`2^10`).
pub const MAX_BACKOFF_SHIFT: u32 = 10;

impl RetryPolicy {
    /// Policy that disables retries entirely.
    pub fn none() -> (p: Self)
        ensures
            p.max_retries == 0,
            p.base_delay@ == 0,
            p.max_delay@ == 0,
    {
        RetryPolicy { max_retries: 0, base_delay: Duration::zero(), max_delay: Duration::zero() }
    }

    /// Production default: 3 retries, 500 ms base, 10 s cap.
    pub fn production() -> (p: Self)
        ensures
            p.max_retries == 3,
            p.base_delay@ == 500_000_000,
            p.max_delay@ == 10_000_000_000,
    {
        RetryPolicy {
            max_retries: 3,
            base_delay: Duration::from_millis(500),
            max_delay: Duration::from_secs(10),
        }
    }
}

impl Default for RetryPolicy {
    /// The production policy.
    fn default() -> (p: Self)
        ensures
            p.max_retries == 3,
            p.base_delay@ == 500_000_000,
            p.max_delay@ == 10_000_000_000,
    {
        RetryPolicy::production()
    }
}

/// The smaller of two naturals.
pub open spec fn min_nat(a: nat, b: nat) -> nat {
    if a <= b {
        a
    } else {
        b
    }
}

/// `x`, or the longest span when `x` is not representable.
pub open spec fn saturate(x: nat) -> nat {
    if x <= MAX_NANOS {
        x
    } else {
        MAX_NANOS as nat
    }
}

/// Delay (in nanoseconds) before retry number `attempt + 1` after `err`.
///
/// A `Retry-After` hint wins over the exponential schedule; either way the
/// result is capped at `policy.max_delay`.
pub open spec fn backoff_spec(policy: RetryPolicy, err: SearchError, attempt: nat) -> nat {
    match err {
        SearchError::RateLimited { retry_after: Some(hint), .. } => min_nat(
            hint@,
            policy.max_delay@,
        ),
        _ => min_nat(
            saturate(policy.base_delay@ * pow2(min_nat(attempt, MAX_BACKOFF_SHIFT as nat))),
            policy.max_delay@,
        ),
    }
}

fn pow2_u32(k: u32) -> (r: u32)
    requires
        k <= MAX_BACKOFF_SHIFT,
    ensures
        r == pow2(k as nat),
{
    let mut r: u32 = 1;
    let mut i: u32 = 0;
    proof {
        lemma2_to64();
    }
    while i < k
        invariant
            i <= k <= MAX_BACKOFF_SHIFT,
            r == pow2(i as nat),
            r <= 1024,
        decreases k - i,
    {
        proof {
            lemma_pow2_unfold((i + 1) as nat);
            lemma2_to64();
        }
        r = r * 2;
        i = i + 1;
    }
    r
}

/// Computes the delay for the next retry attempt.
///
/// Honours `Retry-After` when the provider surfaced one, otherwise falls
/// back to exponential backoff (`base_delay * 2^min(attempt, 10)`) capped at
/// `policy.max_delay`.
pub fn backoff_delay(policy: &RetryPolicy, err: &SearchError, attempt: u32) -> (d: Duration)
    ensures
        d@ == backoff_spec(*policy, *err, attempt as nat),
        d@ <= policy.max_delay@,
{
    match err {
        SearchError::RateLimited { retry_after: Some(hint), .. } => {
            return hint.min(policy.max_delay);
        },
        _ => {},
    }
    let shift = if attempt < MAX_BACKOFF_SHIFT {
        attempt
    } else {
        MAX_BACKOFF_SHIFT
    };
    let factor = pow2_u32(shift);
    let exp = policy.base_delay.saturating_mul(factor);
    exp.min(policy.max_delay)
}

/// What the retry loop does after a failed attempt.
#[derive(Debug, Clone, Copy)]
pub enum RetryStep {
    /// Sleep for `delay`, then make attempt number `next_attempt`.
    Retry {
        /// Time to wait before the next attempt.
        delay: Duration,
        /// Zero-based number of the next attempt.
        next_attempt: u32,
    },
    /// Return the error to the caller.
    GiveUp,
}

/// The loop retries after attempt `attempt` failed with `err` exactly when
/// the error is retryable and retries remain.
pub open spec fn should_retry(policy: RetryPolicy, err: SearchError, attempt: nat) -> bool {
    retryable(err) && attempt < policy.max_retries
}

/// Decides what to do after attempt number `attempt` (zero-based) failed
/// with `err`.
pub fn next_step(policy: &RetryPolicy, err: &SearchError, attempt: u32) -> (s: RetryStep)
    ensures
        should_retry(*policy, *err, attempt as nat) ==> (s matches RetryStep::Retry {
            delay,
            next_attempt,
        } && delay@ == backoff_spec(*policy, *err, attempt as nat) && next_attempt == attempt
            + 1),
        !should_retry(*policy, *err, attempt as nat) ==> s is GiveUp,
{
    if !err.is_retryable() || attempt >= policy.max_retries {
        RetryStep::GiveUp
    } else {
        RetryStep::Retry { delay: backoff_delay(policy, err, attempt), next_attempt: attempt + 1 }
    }
}

/// Number of attempts the retry loop makes when attempt number `n` (from
/// `attempt` on) would produce `outcomes[n]`; the loop stops at the first
/// success, at the first error it does not retry, or when `outcomes` runs out.
pub open spec fn attempts_made(
    policy: RetryPolicy,
    outcomes: Seq<Result<(), SearchError>>,
    attempt: nat,
) -> nat
    decreases outcomes.len() - attempt,
{
    if attempt >= outcomes.len() {
        attempt
    } else {
        match outcomes[attempt as int] {
            Ok(_) => attempt + 1,
            Err(e) => if should_retry(policy, e, attempt) {
                attempts_made(policy, outcomes, attempt + 1)
            } else {
                attempt + 1
            },
        }
    }
}

/// Law: whatever the requests return, the loop never makes more than
/// `max_retries + 1` attempts, and never fewer than the attempts already made.
pub proof fn lemma_attempts_bounded(
    policy: RetryPolicy,
    outcomes: Seq<Result<(), SearchError>>,
    attempt: nat,
)
    requires
        attempt <= policy.max_retries,
    ensures
        attempt <= attempts_made(policy, outcomes, attempt) <= policy.max_retries + 1,
    decreases outcomes.len() - attempt,
{
    if attempt < outcomes.len() {
        match outcomes[attempt as int] {
            Ok(_) => {},
            Err(e) => {
                if should_retry(policy, e, attempt) {
                    lemma_attempts_bounded(policy, outcomes, attempt + 1);
                }
            },
        }
    }
}

/// Law: a success on the first attempt, or a first error that is not
/// retryable (an auth failure, say), ends the loop after exactly one attempt.
pub proof fn lemma_first_attempt_final(policy: RetryPolicy, outcomes: Seq<Result<(), SearchError>>)
    requires
        outcomes.len() > 0,
        outcomes[0] is Ok || (outcomes[0] matches Err(e) && !retryable(e)),
    ensures
        attempts_made(policy, outcomes, 0) == 1,
{
}

/// Law: every wait the policy asks for is at most `max_delay`, and a
/// `Retry-After` hint, when present, is honoured up to that cap.
pub proof fn lemma_backoff_capped(policy: RetryPolicy, err: SearchError, attempt: nat)
    ensures
        backoff_spec(policy, err, attempt) <= policy.max_delay@,
        err matches SearchError::RateLimited { retry_after: Some(hint), .. } ==> backoff_spec(
            policy,
            err,
            attempt,
        ) == min_nat(hint@, policy.max_delay@),
{
}

/// Law: below the cap, each further attempt doubles the wait (up to the
/// tenth doubling) when no `Retry-After` hint is involved.
pub proof fn lemma_backoff_doubles(policy: RetryPolicy, err: SearchError, attempt: nat)
    requires
        !(err matches SearchError::RateLimited { retry_after: Some(_), .. }),
        attempt < MAX_BACKOFF_SHIFT,
        policy.base_delay@ * pow2(attempt + 1) <= policy.max_delay@,
        policy.max_delay@ <= MAX_NANOS,
    ensures
        backoff_spec(policy, err, attempt + 1) == 2 * backoff_spec(policy, err, attempt),
{
    lemma_pow2_unfold(attempt + 1);
    assert(policy.base_delay@ * pow2(attempt + 1) == 2 * (policy.base_delay@ * pow2(attempt)))
        by (nonlinear_arith)
        requires
            pow2(attempt + 1) == 2 * pow2(attempt),
    ;
}

} // verus!
