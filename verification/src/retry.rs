//! Retry policy: which failures are permanent, how long to back off, and
//! when to give up.

use vstd::prelude::*;
use vstd::arithmetic::power2::pow2;
use crate::config::RetryConfig;
use crate::trusted::{random_bool, random_up_to};

verus! {

pub open spec fn permanent_status(status: u16) -> bool {
    status == 400 || status == 401 || status == 403 || status == 404 || status == 405 || status == 410
}

/// Returns true when a status code means a permanent failure — do not retry.
pub fn is_permanent_failure(status: u16) -> (r: bool)
    ensures
        r == permanent_status(status),
{
    status == 400 || status == 401 || status == 403 || status == 404 || status == 405 || status == 410
}

/// `base_ms * 2^attempt`, saturating at `u64::MAX`.
pub open spec fn backoff_base(base_ms: u64, attempt: u8) -> int {
    let d = base_ms * pow2(attempt as nat);
    if d > u64::MAX {
        u64::MAX as int
    } else {
        d
    }
}

/// Largest jitter applied to a back-off of `base` milliseconds: a tenth of it,
/// rounded down, so that the delay never leaves the ±10% band.
pub open spec fn jitter_range(base: int) -> int {
    base / 10
}

/// The delay for a back-off `base` shifted by `jitter` up (`up`) or down,
/// never below zero.
pub open spec fn jittered(base: int, jitter: int, up: bool) -> int {
    if up {
        base + jitter
    } else if base - jitter >= 0 {
        base - jitter
    } else {
        0
    }
}

/// Back-off delays stay within `i64` milliseconds.
pub open spec fn backoff_fits(base_ms: u64, attempt: u8) -> bool {
    attempt < 64 && backoff_base(base_ms, attempt) + jitter_range(backoff_base(base_ms, attempt))
        <= i64::MAX
}

pub fn backoff_base_ms(base_ms: u64, attempt: u8) -> (r: u64)
    requires
        attempt < 64,
    ensures
        r == backoff_base(base_ms, attempt),
{
    proof {
        vstd::bits::lemma_u64_pow2_no_overflow(attempt as nat);
        vstd::bits::lemma_u64_shl_is_mul(1, attempt as u64);
    }
    let factor: u64 = 1u64 << (attempt as u64);
    match base_ms.checked_mul(factor) {
        Some(v) => v,
        None => u64::MAX,
    }
}

/// The delay for a given jitter draw: `base ± jitter`, floored at zero.
pub fn jittered_delay_ms(base_ms: u64, attempt: u8, jitter: u64, up: bool) -> (r: u64)
    requires
        backoff_fits(base_ms, attempt),
        jitter <= jitter_range(backoff_base(base_ms, attempt)),
    ensures
        r == jittered(backoff_base(base_ms, attempt), jitter as int, up),
{
    let base = backoff_base_ms(base_ms, attempt);
    if up {
        base + jitter
    } else if base >= jitter {
        base - jitter
    } else {
        0
    }
}

/// Back-off delay before retrying after failed attempt `attempt`:
/// `base_delay_ms * 2^attempt` with ±10% random jitter.
pub fn backoff_delay(base_ms: u64, attempt: u8) -> (r: u64)
    requires
        backoff_fits(base_ms, attempt),
    ensures
        exists|j: int, up: bool|
            0 <= j <= jitter_range(backoff_base(base_ms, attempt)) && r == jittered(
                backoff_base(base_ms, attempt),
                j,
                up,
            ),
        9 * backoff_base(base_ms, attempt) <= 10 * r <= 11 * backoff_base(base_ms, attempt),
{
    let base = backoff_base_ms(base_ms, attempt);
    let range = base / 10;
    let jitter = random_up_to(range);
    let up = random_bool();
    let r = jittered_delay_ms(base_ms, attempt, jitter, up);
    assert(0 <= jitter as int <= jitter_range(backoff_base(base_ms, attempt)) && r == jittered(
        backoff_base(base_ms, attempt),
        jitter as int,
        up,
    ));
    r
}

/// How one attempt ended.
#[derive(Debug, Clone, Copy, PartialEq, Eq, Structural)]
pub enum AttemptOutcome {
    Succeeded,
    /// A permanent HTTP failure (see `is_permanent_failure`).
    Permanent,
    /// Any other failure.
    Transient,
}

/// What the retry loop does after an attempt.
#[derive(Debug, Clone, Copy, PartialEq, Eq, Structural)]
pub enum RetryDecision {
    /// Return the attempt's value.
    Finish,
    /// Return the permanent error unchanged, without retrying.
    FailPermanent,
    /// Give up with `MaxRetriesExceeded { attempts }`.
    GiveUp { attempts: u8 },
    /// Sleep the back-off for `attempt`, then make attempt `attempt + 1`.
    RetryAfter { attempt: u8 },
}

pub open spec fn spec_retry_step(max_retries: u8, attempt: u8, outcome: AttemptOutcome) -> RetryDecision {
    match outcome {
        AttemptOutcome::Succeeded => RetryDecision::Finish,
        AttemptOutcome::Permanent => RetryDecision::FailPermanent,
        AttemptOutcome::Transient => if attempt >= max_retries {
            RetryDecision::GiveUp { attempts: attempt }
        } else {
            RetryDecision::RetryAfter { attempt }
        },
    }
}

/// The decision after attempt number `attempt` (counting from 0) ended with
/// `outcome`: successes and permanent failures end the loop at once; a
/// transient failure is retried while fewer than `max_retries` retries were
/// made.
pub fn retry_step(config: &RetryConfig, attempt: u8, outcome: AttemptOutcome) -> (r: RetryDecision)
    ensures
        r == spec_retry_step(config.max_retries, attempt, outcome),
        r is RetryAfter ==> attempt < config.max_retries,
        outcome is Transient && attempt < config.max_retries ==> r == (RetryDecision::RetryAfter { attempt }),
{
    match outcome {
        AttemptOutcome::Succeeded => RetryDecision::Finish,
        AttemptOutcome::Permanent => RetryDecision::FailPermanent,
        AttemptOutcome::Transient => {
            if attempt >= config.max_retries {
                RetryDecision::GiveUp { attempts: attempt }
            } else {
                RetryDecision::RetryAfter { attempt }
            }
        },
    }
}

/// Number of calls the retry loop makes, from attempt `k` on, when attempt
/// `i` ends with `outcomes(i)`: after `RetryAfter { attempt }` the loop makes
/// attempt `attempt + 1` next.
pub open spec fn calls_from(max_retries: u8, outcomes: spec_fn(nat) -> AttemptOutcome, k: nat) -> nat
    decreases max_retries - k,
{
    if k < 256 {
        match spec_retry_step(max_retries, k as u8, outcomes(k)) {
            RetryDecision::RetryAfter { attempt } => if attempt as nat + 1 > k {
                calls_from(max_retries, outcomes, attempt as nat + 1)
            } else {
                k + 1
            },
            _ => k + 1,
        }
    } else {
        k + 1
    }
}

/// How the retry loop ends when attempt `i` ends with `outcomes(i)`.
pub open spec fn final_decision(max_retries: u8, outcomes: spec_fn(nat) -> AttemptOutcome) -> RetryDecision {
    let last = (calls_from(max_retries, outcomes, 0) - 1) as nat;
    spec_retry_step(max_retries, last as u8, outcomes(last))
}

proof fn lemma_calls_from(max_retries: u8, outcomes: spec_fn(nat) -> AttemptOutcome, k: nat)
    requires
        k <= max_retries,
    ensures
        k + 1 <= calls_from(max_retries, outcomes, k) <= max_retries + 1,
        (forall|i: nat| k <= i <= max_retries ==> #[trigger] outcomes(i) == AttemptOutcome::Transient)
            ==> calls_from(max_retries, outcomes, k) == max_retries + 1,
        !(spec_retry_step(max_retries, (calls_from(max_retries, outcomes, k) - 1) as u8, outcomes(
            (calls_from(max_retries, outcomes, k) - 1) as nat,
        )) is RetryAfter),
    decreases max_retries - k,
{
    if spec_retry_step(max_retries, k as u8, outcomes(k)) is RetryAfter {
        lemma_calls_from(max_retries, outcomes, k + 1);
    }
}

/// Law: a retry names the attempt that just failed — after transient
/// failure of attempt `a` with fewer than `max_retries` attempts behind it,
/// the loop backs off for attempt `a` and makes attempt `a + 1`; once
/// `max_retries` retries were made it gives up reporting that many.
pub proof fn lemma_retry_follows_failed_attempt(max_retries: u8, attempt: u8)
    ensures
        attempt < max_retries ==> spec_retry_step(max_retries, attempt, AttemptOutcome::Transient)
            == (RetryDecision::RetryAfter { attempt }),
        attempt >= max_retries ==> spec_retry_step(max_retries, attempt, AttemptOutcome::Transient)
            == (RetryDecision::GiveUp { attempts: attempt }),
        spec_retry_step(max_retries, attempt, AttemptOutcome::Succeeded) == RetryDecision::Finish,
        spec_retry_step(max_retries, attempt, AttemptOutcome::Permanent) == RetryDecision::FailPermanent,
{
}

/// Law: the retry loop makes at most `max_retries + 1` calls; it stops after
/// the first call when that call succeeds or fails permanently; when every
/// call fails transiently it makes exactly `max_retries + 1` calls and gives
/// up reporting `max_retries` attempts; and it never ends on a retry.
pub proof fn lemma_retry_bounds(max_retries: u8, outcomes: spec_fn(nat) -> AttemptOutcome)
    ensures
        1 <= calls_from(max_retries, outcomes, 0) <= max_retries + 1,
        outcomes(0) != AttemptOutcome::Transient ==> calls_from(max_retries, outcomes, 0) == 1,
        outcomes(0) == AttemptOutcome::Permanent ==> final_decision(max_retries, outcomes)
            == RetryDecision::FailPermanent,
        (forall|i: nat| i <= max_retries ==> #[trigger] outcomes(i) == AttemptOutcome::Transient) ==> (
        calls_from(max_retries, outcomes, 0) == max_retries + 1 && final_decision(
            max_retries,
            outcomes,
        ) == (RetryDecision::GiveUp { attempts: max_retries })),
        !(final_decision(max_retries, outcomes) is RetryAfter),
{
    lemma_calls_from(max_retries, outcomes, 0);
}

} // verus!
