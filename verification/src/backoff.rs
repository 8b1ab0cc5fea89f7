//! Retry delays: how long a failed task waits before it may run again.

use vstd::arithmetic::power2::{lemma2_to64, lemma_pow2_strictly_increases, lemma_pow2_unfold, pow2};
use vstd::prelude::*;

verus! {

/// The delay before the first retry, in seconds.
pub const BASE_SECONDS: u32 = 60;

/// The largest attempt number whose delay still fits in a `u32`.
pub const MAX_BACKOFF_ATTEMPT: u32 = 26;

/// The delay in seconds after the failure of attempt number `attempt`:
/// the base delay, doubled once per earlier attempt.
pub open spec fn backoff_seconds(attempt: nat) -> nat {
    BASE_SECONDS as nat * pow2(attempt)
}

/// The delay grows with the attempt number.
pub proof fn lemma_backoff_monotonic(a: nat, b: nat)
    requires
        a <= b,
    ensures
        backoff_seconds(a) <= backoff_seconds(b),
{
    if a < b {
        lemma_pow2_strictly_increases(a, b);
    }
}

/// Every delay up to the largest supported attempt fits in a `u32`.
pub proof fn lemma_backoff_fits(attempt: nat)
    requires
        attempt <= MAX_BACKOFF_ATTEMPT,
    ensures
        backoff_seconds(attempt) <= u32::MAX,
{
    lemma_backoff_monotonic(attempt, MAX_BACKOFF_ATTEMPT as nat);
    lemma2_to64();
}

/// The delays of the first four attempts are one, two, four and eight
/// minutes, and each further attempt doubles the delay.
pub proof fn law_backoff_doubles(attempt: nat)
    ensures
        backoff_seconds(0) == 60,
        backoff_seconds(1) == 120,
        backoff_seconds(2) == 240,
        backoff_seconds(3) == 480,
        backoff_seconds(attempt + 1) == 2 * backoff_seconds(attempt),
{
    lemma2_to64();
    lemma_pow2_unfold(attempt + 1);
}

/// Computes the retry delay for a failed attempt.
pub fn backoff(attempt: u32) -> (seconds: u32)
    requires
        attempt <= MAX_BACKOFF_ATTEMPT,
    ensures
        seconds == backoff_seconds(attempt as nat),
{
    let mut seconds: u32 = BASE_SECONDS;
    let mut done: u32 = 0;
    proof {
        lemma2_to64();
    }
    while done < attempt
        invariant
            done <= attempt <= MAX_BACKOFF_ATTEMPT,
            seconds == backoff_seconds(done as nat),
        decreases attempt - done,
    {
        proof {
            lemma_backoff_fits((done + 1) as nat);
            lemma_pow2_unfold((done + 1) as nat);
        }
        seconds = seconds * 2;
        done = done + 1;
    }
    seconds
}

} // verus!
