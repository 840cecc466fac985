//! Bounded retry with exponential backoff for listing fetches: up to four
//! attempts, waiting 5, 10 and 20 seconds between them. The caller that owns
//! the network performs each attempt and reports its outcome; the policy here
//! decides whether and how long to wait, and when to give up.
use vstd::prelude::*;

verus! {

/// A listing fetch makes at most this many attempts.
pub const LISTING_MAX_ATTEMPTS: u32 = 4;

/// The wait before the first retry, in seconds.
pub const BASE_BACKOFF_SECS: u64 = 5;

/// Each further retry doubles the wait.
pub const BACKOFF_MULTIPLIER: u64 = 2;

/// The wait after failed attempt number `i` (counting from 0): 5, 10, 20, ...
pub open spec fn spec_backoff_secs(i: nat) -> nat
    decreases i,
{
    if i == 0 {
        BASE_BACKOFF_SECS as nat
    } else {
        (BACKOFF_MULTIPLIER as nat) * spec_backoff_secs((i - 1) as nat)
    }
}

/// The backoff schedule as executable arithmetic.
pub fn backoff_secs(retry_index: u32) -> (r: u64)
    requires
        retry_index < LISTING_MAX_ATTEMPTS,
    ensures
        r == spec_backoff_secs(retry_index as nat),
{
    let mut r: u64 = BASE_BACKOFF_SECS;
    let mut i: u32 = 0;
    while i < retry_index
        invariant
            i <= retry_index,
            retry_index < LISTING_MAX_ATTEMPTS,
            r == spec_backoff_secs(i as nat),
        decreases retry_index - i,
    {
        proof {
            assert(spec_backoff_secs(0) == 5);
            assert(spec_backoff_secs(1) == 10);
            assert(spec_backoff_secs(2) == 20);
        }
        r = r * BACKOFF_MULTIPLIER;
        i += 1;
    }
    r
}

/// Whether a bounded-retry fetch succeeds, given the outcome each attempt
/// would have (`true` is success): it stops at the first success and gives up
/// after `max` failed attempts. Attempts beyond the end of `outcomes` fail.
pub open spec fn spec_fetch_succeeds(outcomes: Seq<bool>, max: nat) -> bool
    decreases max,
{
    if max == 0 || outcomes.len() == 0 {
        false
    } else if outcomes[0] {
        true
    } else {
        spec_fetch_succeeds(outcomes.skip(1), (max - 1) as nat)
    }
}

/// How many attempts such a fetch makes.
pub open spec fn spec_attempts_used(outcomes: Seq<bool>, max: nat) -> nat
    decreases max,
{
    if max == 0 {
        0
    } else if outcomes.len() == 0 {
        max
    } else if outcomes[0] {
        1
    } else {
        1 + spec_attempts_used(outcomes.skip(1), (max - 1) as nat)
    }
}

/// Law: a bounded-retry fetch succeeds exactly when some attempt within the
/// bound would succeed; earlier failures — up to the bound — are absorbed by
/// retrying, and a run whose first `max` attempts all fail is given up.
pub proof fn lemma_fetch_retry(outcomes: Seq<bool>, max: nat)
    ensures
        spec_fetch_succeeds(outcomes, max) <==> exists|i: int|
            0 <= i < max && i < outcomes.len() && outcomes[i],
    decreases max,
{
    if max == 0 || outcomes.len() == 0 {
    } else if outcomes[0] {
        assert(0 < max && 0 < outcomes.len() && outcomes[0]);
    } else {
        lemma_fetch_retry(outcomes.skip(1), (max - 1) as nat);
        if spec_fetch_succeeds(outcomes, max) {
            let j = choose|j: int|
                0 <= j < max - 1 && j < outcomes.skip(1).len() && outcomes.skip(1)[j];
            assert(outcomes[j + 1]);
        }
        if exists|i: int| 0 <= i < max && i < outcomes.len() && outcomes[i] {
            let i = choose|i: int| 0 <= i < max && i < outcomes.len() && outcomes[i];
            assert(i != 0);
            assert(outcomes.skip(1)[i - 1]);
        }
    }
}

/// Result of driving one listing fetch to completion.
pub struct FetchRun {
    pub succeeded: bool,
    pub attempts: usize,
}

/// Drives the retry loop over the outcomes the attempts would have, stopping
/// at the first success or after `LISTING_MAX_ATTEMPTS` failures.
pub fn run_fetch(outcomes: &Vec<bool>) -> (r: FetchRun)
    ensures
        r.succeeded == spec_fetch_succeeds(outcomes@, LISTING_MAX_ATTEMPTS as nat),
        r.attempts == spec_attempts_used(outcomes@, LISTING_MAX_ATTEMPTS as nat),
{
    let max: usize = 4;
    let mut i: usize = 0;
    proof {
        assert(outcomes@.skip(0) =~= outcomes@);
    }
    loop
        invariant
            0 <= i <= max,
            max == 4,
            forall|j: int| 0 <= j < i && j < outcomes@.len() ==> !outcomes@[j],
            spec_fetch_succeeds(outcomes@, LISTING_MAX_ATTEMPTS as nat) == spec_fetch_succeeds(
                outcomes@.skip(if i < outcomes@.len() {
                    i as int
                } else {
                    outcomes@.len() as int
                }),
                (LISTING_MAX_ATTEMPTS - i) as nat,
            ),
            spec_attempts_used(outcomes@, LISTING_MAX_ATTEMPTS as nat) == i
                + spec_attempts_used(
                outcomes@.skip(if i < outcomes@.len() {
                    i as int
                } else {
                    outcomes@.len() as int
                }),
                (LISTING_MAX_ATTEMPTS - i) as nat,
            ),
        decreases max - i,
    {
        if i >= max {
            return FetchRun { succeeded: false, attempts: i };
        }
        let ok = if i < outcomes.len() {
            outcomes[i]
        } else {
            false
        };
        if ok {
            return FetchRun { succeeded: true, attempts: i + 1 };
        }
        proof {
            if i < outcomes@.len() {
                assert(outcomes@.skip(i as int).skip(1) =~= outcomes@.skip(i as int + 1));
                if i + 1 == outcomes@.len() {
                    assert(outcomes@.skip(i as int + 1) =~= outcomes@.skip(
                        outcomes@.len() as int,
                    ));
                }
            } else {
                assert(outcomes@.skip(outcomes@.len() as int).len() == 0);
            }
        }
        i += 1;
    }
}

} // verus!
