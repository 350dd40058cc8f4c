//! When a failed request is sent again, and after how long.

use std::time::Duration;

use vstd::prelude::*;

use crate::error::HonchoError;

verus! {

/// How many times a failed request is sent again unless set otherwise.
pub const DEFAULT_MAX_RETRIES: u32 = 2;

/// The wait before the first resend, in milliseconds.
pub const INITIAL_RETRY_DELAY_MS: u64 = 500;

/// The longest wait between two sends, in milliseconds.
pub const MAX_RETRY_DELAY_MS: u64 = 8000;

/// The exponential backoff before resend number `attempt` (counted from
/// 0), in milliseconds: the initial delay, doubled for each earlier
/// resend, and never above the maximum.
pub open spec fn spec_backoff_ms(attempt: nat) -> nat
    decreases attempt,
{
    if attempt == 0 {
        INITIAL_RETRY_DELAY_MS as nat
    } else {
        let prev = spec_backoff_ms((attempt - 1) as nat);
        if 2 * prev >= MAX_RETRY_DELAY_MS {
            MAX_RETRY_DELAY_MS as nat
        } else {
            2 * prev
        }
    }
}

/// The `Duration` of `ms` milliseconds, as `Duration::from_millis` builds it.
pub uninterp spec fn spec_duration_from_millis(ms: u64) -> Duration;

/// `std::time::Duration::from_millis`; its result is only named here.
#[verifier::external_body]
fn duration_from_millis(ms: u64) -> (d: Duration)
    ensures
        d == spec_duration_from_millis(ms),
{
    Duration::from_millis(ms)
}

/// The backoff before resend number `attempt`, as a duration.
pub open spec fn spec_backoff(attempt: nat) -> Duration {
    spec_duration_from_millis(spec_backoff_ms(attempt) as u64)
}

/// Law: the backoff stays between the initial delay and the maximum, and
/// stays at the maximum once it reached it.
pub proof fn lemma_backoff_bounds(attempt: nat)
    ensures
        INITIAL_RETRY_DELAY_MS <= spec_backoff_ms(attempt) <= MAX_RETRY_DELAY_MS,
        spec_backoff_ms(attempt) == MAX_RETRY_DELAY_MS ==> spec_backoff_ms(attempt + 1) == MAX_RETRY_DELAY_MS,
    decreases attempt,
{
    if attempt > 0 {
        lemma_backoff_bounds((attempt - 1) as nat);
    }
}

/// Proof that once the backoff reached the maximum it stays there.
proof fn lemma_backoff_capped(n: nat, m: nat)
    requires
        n <= m,
        spec_backoff_ms(n) == MAX_RETRY_DELAY_MS,
    ensures
        spec_backoff_ms(m) == MAX_RETRY_DELAY_MS,
    decreases m - n,
{
    if n < m {
        lemma_backoff_bounds(n);
        lemma_backoff_capped(n + 1, m);
    }
}

/// The backoff before resend number `attempt`, in milliseconds.
pub fn backoff_ms(attempt: u32) -> (r: u64)
    ensures
        r == spec_backoff_ms(attempt as nat),
{
    let mut d: u64 = INITIAL_RETRY_DELAY_MS;
    let mut i: u32 = 0;
    while i < attempt && d < MAX_RETRY_DELAY_MS
        invariant
            i <= attempt,
            d == spec_backoff_ms(i as nat),
        decreases attempt - i,
    {
        proof { lemma_backoff_bounds(i as nat); }
        if 2 * d >= MAX_RETRY_DELAY_MS {
            d = MAX_RETRY_DELAY_MS;
        } else {
            d = 2 * d;
        }
        i = i + 1;
    }
    proof {
        if i < attempt {
            lemma_backoff_capped(i as nat, attempt as nat);
        }
    }
    d
}

/// Whether request number `attempt` (counted from 0) that failed with
/// `error` is sent again, and after how long: a retryable error is retried
/// while fewer than `max_retries` resends were made, after the wait the
/// server asked for in `Retry-After`, or else after the exponential backoff.
pub fn next_retry_delay(attempt: u32, max_retries: u32, error: &HonchoError) -> (r: Option<Duration>)
    ensures
        r is Some <==> (attempt < max_retries && error.spec_is_retryable()),
        r matches Some(d) ==> d == match error.spec_retry_after() {
            Some(ra) => ra,
            None => spec_backoff(attempt as nat),
        },
{
    if attempt >= max_retries || !error.is_retryable() {
        return None;
    }
    match error.retry_after() {
        Some(ra) => Some(ra),
        None => Some(duration_from_millis(backoff_ms(attempt))),
    }
}

/// Law: once `max_retries` resends were made no error is retried, so a
/// request is sent at most `max_retries + 1` times; and an error that is not
/// retryable is never retried.
pub proof fn law_retries_are_bounded(attempt: u32, max_retries: u32, error: HonchoError)
    requires
        attempt >= max_retries || !error.spec_is_retryable(),
    ensures
        !(attempt < max_retries && error.spec_is_retryable()),
{
}

} // verus!
