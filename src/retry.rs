//! The retry policy: which failed attempts are tried again, how often, and
//! after how long.
//!
//! After attempt `i` (counting from zero) fails with a transport error, and
//! while fewer than `max_retries` retries were made, the caller waits a random
//! delay between zero and `base_delay * 2^i` and tries again. Any other outcome
//! ends the call and is handed back unchanged.

use vstd::prelude::*;

use rand::Rng;

use crate::error::{retry_eligible, Error};

verus! {

/// Relies on `rand::Rng::gen_range` over the thread's generator: a uniformly
/// drawn value from zero to `ceiling`, both included (the range is never empty).
#[verifier::external_body]
fn draw_up_to(ceiling: u64) -> (r: u64)
    ensures
        r <= ceiling,
{
    rand::thread_rng().gen_range(0..=ceiling)
}

/// Two to the power `n`.
pub open spec fn pow2(n: nat) -> nat
    decreases n,
{
    if n == 0 {
        1
    } else {
        2 * pow2((n - 1) as nat)
    }
}

/// The largest delay before retry number `retry` (counting from zero), in
/// milliseconds: the base delay, in seconds, doubled once per earlier retry.
pub open spec fn backoff_ceiling(base_delay_secs: nat, retry: nat) -> nat {
    base_delay_secs * 1000 * pow2(retry)
}

/// How many retries a call may make and how long it waits before each.
#[derive(Clone, Copy, Debug, PartialEq, Eq, Structural)]
pub struct RetryPolicy {
    /// Base delay, in seconds.
    pub base_delay_secs: u32,
    /// Largest number of retries after the first attempt.
    pub max_retries: u32,
}

proof fn lemma_pow2_monotone(a: nat, b: nat)
    requires
        a <= b,
    ensures
        pow2(a) <= pow2(b),
    decreases b,
{
    if a < b {
        lemma_pow2_monotone(a, (b - 1) as nat);
    }
}

impl RetryPolicy {
    /// A policy that makes exactly one attempt.
    pub fn disabled() -> (r: RetryPolicy)
        ensures
            r.base_delay_secs == 0,
            r.max_retries == 0,
    {
        RetryPolicy { base_delay_secs: 0, max_retries: 0 }
    }

    /// The largest delay before retry number `retry`, in milliseconds, or
    /// `u64::MAX` where it does not fit.
    pub fn ceiling_ms(&self, retry: u32) -> (r: u64)
        ensures
            r == if backoff_ceiling(self.base_delay_secs as nat, retry as nat) > u64::MAX {
                u64::MAX as int
            } else {
                backoff_ceiling(self.base_delay_secs as nat, retry as nat) as int
            },
    {
        let base: u64 = self.base_delay_secs as u64 * 1000;
        let ghost x: nat = self.base_delay_secs as nat * 1000;
        if base == 0 {
            assert(backoff_ceiling(self.base_delay_secs as nat, retry as nat) == 0) by {
                assert(self.base_delay_secs == 0);
            }
            return 0;
        }
        let mut c: u64 = base;
        let mut k: u32 = 0;
        assert(pow2(0) == 1);
        while k < retry
            invariant
                k <= retry,
                c as nat == x * pow2(k as nat),
                c > 0,
                x > 0,
                x == self.base_delay_secs as nat * 1000,
            decreases retry - k,
        {
            if c > u64::MAX / 2 {
                proof {
                    lemma_pow2_monotone((k + 1) as nat, retry as nat);
                    let p = pow2((k + 1) as nat);
                    let q = pow2(retry as nat);
                    assert(p == 2 * pow2(k as nat));
                    let pk = pow2(k as nat);
                    assert(x * p == 2 * (x * pk)) by (nonlinear_arith)
                        requires
                            p == 2 * pk,
                    ;
                    assert(x * p <= x * q) by (nonlinear_arith)
                        requires
                            p <= q,
                            x > 0,
                    ;
                    assert(backoff_ceiling(self.base_delay_secs as nat, retry as nat) == x * q);
                }
                return u64::MAX;
            }
            proof {
                assert(pow2((k + 1) as nat) == 2 * pow2(k as nat));
                assert(x * pow2((k + 1) as nat) == 2 * (x * pow2(k as nat))) by (nonlinear_arith);
            }
            c = c * 2;
            k = k + 1;
        }
        assert(backoff_ceiling(self.base_delay_secs as nat, retry as nat) == x * pow2(retry as nat));
        c
    }

    /// The delay before retry number `retry`, in milliseconds: drawn at random
    /// from zero up to the ceiling of that retry.
    pub fn backoff_delay_ms(&self, retry: u32) -> (r: u64)
        ensures
            r <= backoff_ceiling(self.base_delay_secs as nat, retry as nat),
    {
        let ceiling = self.ceiling_ms(retry);
        draw_up_to(ceiling)
    }
}

/// Whether an attempt's outcome may be retried: a transport error.
pub open spec fn outcome_eligible<T>(outcome: Result<T, Error>) -> bool {
    outcome matches Err(e) && retry_eligible(e)
}

/// Whether a call that already made `used` retries tries again after an
/// attempt whose outcome is `outcome`.
pub open spec fn retries_again<T>(max_retries: nat, used: nat, outcome: Result<T, Error>) -> bool {
    outcome_eligible(outcome) && used < max_retries
}

/// The number of attempts a call makes, having made `used` retries already,
/// where its attempts have the outcomes `outcomes` in turn.
pub open spec fn attempts_made<T>(max_retries: nat, used: nat, outcomes: Seq<Result<T, Error>>) -> nat
    decreases outcomes.len(),
{
    if outcomes.len() == 0 {
        0
    } else if retries_again(max_retries, used, outcomes[0]) {
        1 + attempts_made(max_retries, used + 1, outcomes.drop_first())
    } else {
        1
    }
}

/// What comes of a finished attempt.
#[derive(Debug)]
pub enum Next<T> {
    /// Wait this many milliseconds, then attempt again.
    Retry(u64),
    /// The call ends with this outcome.
    Done(Result<T, Error>),
}

/// The retries one call has made so far, under its policy.
#[derive(Clone, Copy, Debug)]
pub struct RetryState {
    /// The policy of the call.
    pub policy: RetryPolicy,
    /// Retries made so far.
    pub retries: u32,
}

impl RetryState {
    /// A call that has made no retry yet.
    pub fn new(policy: RetryPolicy) -> (r: RetryState)
        ensures
            r.policy == policy,
            r.retries == 0,
    {
        RetryState { policy, retries: 0 }
    }

    /// Decides what follows an attempt. A transport error with retries left
    /// gives a delay no longer than the ceiling of this retry; any other
    /// outcome ends the call, unchanged.
    pub fn after_attempt<T>(&mut self, outcome: Result<T, Error>) -> (r: Next<T>)
        ensures
            final(self).policy == old(self).policy,
            retries_again(old(self).policy.max_retries as nat, old(self).retries as nat, outcome) ==> (
            r matches Next::Retry(d) && d <= backoff_ceiling(
                old(self).policy.base_delay_secs as nat,
                old(self).retries as nat,
            ) && final(self).retries == old(self).retries + 1),
            !retries_again(old(self).policy.max_retries as nat, old(self).retries as nat, outcome)
                ==> (r == Next::Done(outcome) && final(self).retries == old(self).retries),
    {
        let eligible = match &outcome {
            Err(e) => e.is_retry_eligible(),
            Ok(_) => false,
        };
        if eligible && self.retries < self.policy.max_retries {
            let delay = self.policy.backoff_delay_ms(self.retries);
            self.retries = self.retries + 1;
            Next::Retry(delay)
        } else {
            Next::Done(outcome)
        }
    }
}

/// A call whose first attempt fails with anything but a transport error makes
/// exactly one attempt, whatever the policy, and ends with that outcome.
pub proof fn retry_only_on_transport<T>(max_retries: nat, outcomes: Seq<Result<T, Error>>)
    requires
        outcomes.len() >= 1,
        !outcome_eligible(outcomes[0]),
    ensures
        attempts_made(max_retries, 0, outcomes) == 1,
{
}

/// Without retries a call makes exactly one attempt.
pub proof fn single_attempt_without_retries<T>(outcomes: Seq<Result<T, Error>>)
    requires
        outcomes.len() >= 1,
    ensures
        attempts_made(0, 0, outcomes) == 1,
{
}

proof fn lemma_all_transport<T>(max_retries: nat, used: nat, outcomes: Seq<Result<T, Error>>)
    requires
        used <= max_retries,
        outcomes.len() > max_retries - used,
        forall|i: int| 0 <= i < outcomes.len() ==> #[trigger] outcome_eligible(outcomes[i]),
    ensures
        attempts_made(max_retries, used, outcomes) == max_retries - used + 1,
    decreases outcomes.len(),
{
    assert(outcome_eligible(outcomes[0]));
    if used < max_retries {
        let rest = outcomes.drop_first();
        assert forall|i: int| 0 <= i < rest.len() implies #[trigger] outcome_eligible(rest[i]) by {
            assert(rest[i] == outcomes[i + 1]);
            assert(outcome_eligible(outcomes[i + 1]));
        }
        lemma_all_transport(max_retries, used + 1, rest);
    }
}

/// A call whose attempts all fail with transport errors makes exactly
/// `max_retries + 1` attempts, and the last of them ends it with a transport
/// error.
pub proof fn retry_bound<T>(max_retries: nat, outcomes: Seq<Result<T, Error>>)
    requires
        outcomes.len() > max_retries,
        forall|i: int| 0 <= i < outcomes.len() ==> (#[trigger] outcomes[i] matches Err(e) && e is Transport),
    ensures
        attempts_made(max_retries, 0, outcomes) == max_retries + 1,
        outcomes[max_retries as int] matches Err(e) && e is Transport,
        !retries_again(max_retries, max_retries, outcomes[max_retries as int]),
{
    assert forall|i: int| 0 <= i < outcomes.len() implies #[trigger] outcome_eligible(outcomes[i]) by {
        assert(outcomes[i] matches Err(e) && e is Transport);
    }
    lemma_all_transport(max_retries, 0, outcomes);
    assert(outcomes[max_retries as int] matches Err(e) && e is Transport);
}

} // verus!
