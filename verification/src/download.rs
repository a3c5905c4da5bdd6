use vstd::prelude::*;
use crate::errors::SadlError;

verus! {

/// The fixed delay, in seconds, between a failed attempt and the next one.
pub const RETRY_DELAY_SECS: u64 = 5;

/// Progress of one download attempt: bytes recorded so far against the
/// declared total content length of the response.
pub struct Progress {
    pub downloaded: u64,
    pub total: u64,
}

impl Progress {
    /// The running byte count never exceeds the declared total.
    pub open spec fn wf(self) -> bool {
        self.downloaded <= self.total
    }

    /// Begins an attempt from the declared content length of the response;
    /// a response without one is a hard failure of the attempt.
    pub fn start_attempt(content_length: Option<u64>) -> (r: Result<Progress, SadlError>)
        ensures
            match content_length {
                Some(total) => r matches Ok(p) && p.total == total && p.downloaded == 0,
                None => r matches Err(e) && e == SadlError::MissingContentLength,
            },
    {
        match content_length {
            Some(total) => Ok(Progress { downloaded: 0, total }),
            None => Err(SadlError::MissingContentLength),
        }
    }

    /// Records one delivered chunk, clamping the running count at the
    /// declared total even if the transport over-delivers.
    pub fn record_chunk(&mut self, len: u64)
        requires
            old(self).wf(),
        ensures
            final(self).wf(),
            final(self).total == old(self).total,
            final(self).downloaded == vstd::math::min(
                old(self).downloaded + len,
                old(self).total as int,
            ),
    {
        let remaining = self.total - self.downloaded;
        if len >= remaining {
            self.downloaded = self.total;
        } else {
            self.downloaded = self.downloaded + len;
        }
    }
}

/// The total size of a sequence of delivered chunks.
pub open spec fn sum_lens(s: Seq<u64>) -> int
    decreases s.len(),
{
    if s.len() == 0 {
        0
    } else {
        sum_lens(s.drop_last()) + s.last()
    }
}

/// Replays one attempt's stream of chunk lengths against a declared total
/// and returns the final running count: the total size of the chunks,
/// clamped at the declared total.
pub fn apply_chunks(total: u64, chunk_lens: &Vec<u64>) -> (r: u64)
    ensures
        r == vstd::math::min(sum_lens(chunk_lens@), total as int),
        r <= total,
{
    let mut p = Progress { downloaded: 0, total };
    let mut i: usize = 0;
    while i < chunk_lens.len()
        invariant
            p.total == total,
            p.wf(),
            i <= chunk_lens@.len(),
            p.downloaded == vstd::math::min(sum_lens(chunk_lens@.take(i as int)), total as int),
        decreases chunk_lens@.len() - i,
    {
        p.record_chunk(chunk_lens[i]);
        proof {
            assert(chunk_lens@.take(i + 1).drop_last() =~= chunk_lens@.take(i as int));
            assert(chunk_lens@.take(i + 1).last() == chunk_lens@[i as int]);
        }
        i += 1;
    }
    proof {
        assert(chunk_lens@.take(chunk_lens@.len() as int) =~= chunk_lens@);
    }
    p.downloaded
}

/// How many attempts a given retry budget allows: the budget itself,
/// except that a zero budget still allows the one unconditional first
/// attempt.
pub open spec fn attempt_cap(budget: nat) -> nat {
    if budget == 0 {
        1
    } else {
        budget
    }
}

/// Whether a run of the retry loop ends in success, given which attempts
/// would succeed (`outcomes[k]` tells whether attempt `k + 1` succeeds):
/// true exactly when one of the first `cap` attempts succeeds.
pub open spec fn retry_succeeds(outcomes: Seq<bool>, cap: nat) -> bool
    decreases cap,
{
    if cap == 0 || outcomes.len() == 0 {
        false
    } else if outcomes[0] {
        true
    } else {
        retry_succeeds(outcomes.drop_first(), (cap - 1) as nat)
    }
}

/// How many attempts a run of the retry loop makes: it stops at the first
/// success, or once the attempt cap is exhausted.
pub open spec fn retry_attempts(outcomes: Seq<bool>, cap: nat) -> nat
    decreases cap,
{
    if cap <= 1 {
        1
    } else if outcomes.len() == 0 {
        1
    } else if outcomes[0] {
        1
    } else {
        1 + retry_attempts(outcomes.drop_first(), (cap - 1) as nat)
    }
}

/// What the retry loop does once an attempt has finished.
#[derive(Clone, Copy, Debug, PartialEq, Eq, Structural)]
pub enum RetryDecision {
    /// The run is over: the attempt succeeded, or the budget is spent.
    Stop,
    /// Wait the fixed delay, then attempt again.
    RetryAfterDelay,
}

/// The decision after one download attempt: stop on success; on failure,
/// spend one unit of the remaining budget, and retry only while some is
/// left.
pub fn after_attempt(remaining: &mut usize, success: bool) -> (d: RetryDecision)
    ensures
        success ==> d == RetryDecision::Stop && *final(remaining) == *old(remaining),
        !success ==> *final(remaining) == if *old(remaining) == 0 {
            0int
        } else {
            *old(remaining) - 1
        },
        !success ==> (d == RetryDecision::Stop <==> *final(remaining) == 0),
{
    if success {
        RetryDecision::Stop
    } else {
        if *remaining > 0 {
            *remaining = *remaining - 1;
        }
        if *remaining == 0 {
            RetryDecision::Stop
        } else {
            RetryDecision::RetryAfterDelay
        }
    }
}

fn run_retry_from(outcomes: &Vec<bool>, i: usize, budget: usize) -> (r: (usize, bool))
    requires
        i + attempt_cap(budget as nat) <= outcomes@.len(),
    ensures
        r.0 == retry_attempts(outcomes@.skip(i as int), attempt_cap(budget as nat)),
        r.1 == retry_succeeds(outcomes@.skip(i as int), attempt_cap(budget as nat)),
        1 <= r.0 <= attempt_cap(budget as nat),
    decreases budget,
{
    let n = outcomes.len();
    let outcome = outcomes[i];
    proof {
        assert(i < n);
        assert(outcomes@.skip(i as int)[0] == outcomes@[i as int]);
    }
    let mut remaining = budget;
    let d = after_attempt(&mut remaining, outcome);
    match d {
        RetryDecision::Stop => {
            proof {
                let s = outcomes@.skip(i as int);
                if !outcome {
                    assert(attempt_cap(budget as nat) == 1);
                    assert(!retry_succeeds(s.drop_first(), 0));
                    assert(!retry_succeeds(s, 1));
                }
            }
            (1, outcome)
        },
        RetryDecision::RetryAfterDelay => {
            proof {
                assert(outcomes@.skip(i as int).drop_first() =~= outcomes@.skip(i as int + 1));
            }
            let (a, s) = run_retry_from(outcomes, i + 1, remaining);
            (1 + a, s)
        },
    }
}

/// Drives a whole run of the retry loop over a fixed schedule of attempt
/// outcomes (`outcomes[k]` tells whether attempt `k + 1` would succeed),
/// deciding after each attempt with `after_attempt`; returns how many
/// attempts were made and whether the run ended in success.
pub fn run_retry(budget: usize, outcomes: &Vec<bool>) -> (r: (usize, bool))
    requires
        outcomes@.len() >= attempt_cap(budget as nat),
    ensures
        r.0 == retry_attempts(outcomes@, attempt_cap(budget as nat)),
        r.1 == retry_succeeds(outcomes@, attempt_cap(budget as nat)),
{
    let r = run_retry_from(outcomes, 0, budget);
    proof {
        assert(outcomes@.skip(0) =~= outcomes@);
    }
    r
}

proof fn lemma_retry_skip(outcomes: Seq<bool>, cap: nat, k: nat)
    requires
        k < cap,
        cap <= outcomes.len(),
        forall|j: int| 0 <= j < k ==> !outcomes[j],
    ensures
        retry_attempts(outcomes, cap) == k + retry_attempts(
            outcomes.skip(k as int),
            (cap - k) as nat,
        ),
        retry_succeeds(outcomes, cap) == retry_succeeds(
            outcomes.skip(k as int),
            (cap - k) as nat,
        ),
    decreases k,
{
    if k == 0 {
        assert(outcomes.skip(0) =~= outcomes);
    } else {
        assert(!outcomes[0]);
        assert forall|j: int| 0 <= j < k - 1 implies !outcomes.drop_first()[j] by {
            assert(outcomes.drop_first()[j] == outcomes[j + 1]);
        }
        lemma_retry_skip(outcomes.drop_first(), (cap - 1) as nat, (k - 1) as nat);
        assert(outcomes.drop_first().skip(k - 1) =~= outcomes.skip(k as int));
    }
}

/// A run that fails its first `budget - 1` attempts and succeeds on
/// attempt `budget` makes exactly `budget` attempts and ends in success.
pub proof fn lemma_succeeds_on_last_budgeted_attempt(outcomes: Seq<bool>, budget: nat)
    requires
        1 <= budget <= outcomes.len(),
        forall|j: int| 0 <= j < budget - 1 ==> !outcomes[j],
        outcomes[budget - 1],
    ensures
        retry_attempts(outcomes, attempt_cap(budget)) == budget,
        retry_succeeds(outcomes, attempt_cap(budget)),
{
    lemma_retry_skip(outcomes, budget, (budget - 1) as nat);
    let tail = outcomes.skip(budget - 1);
    assert(tail[0] == outcomes[budget - 1]);
}

/// A run whose attempts all fail exhausts the attempt cap, ends without
/// success, and makes no attempt beyond the cap.
pub proof fn lemma_budget_exhausted(outcomes: Seq<bool>, budget: nat)
    requires
        attempt_cap(budget) <= outcomes.len(),
        forall|j: int| 0 <= j < attempt_cap(budget) ==> !outcomes[j],
    ensures
        retry_attempts(outcomes, attempt_cap(budget)) == attempt_cap(budget),
        !retry_succeeds(outcomes, attempt_cap(budget)),
{
    let cap = attempt_cap(budget);
    lemma_retry_skip(outcomes, cap, (cap - 1) as nat);
    let tail = outcomes.skip(cap - 1);
    assert(tail[0] == outcomes[cap - 1]);
    assert(!retry_succeeds(tail.drop_first(), 0));
    assert(!retry_succeeds(tail, 1));
}

/// With a zero retry budget, exactly one attempt is made, whatever its
/// outcome.
pub proof fn lemma_zero_budget_one_attempt(outcomes: Seq<bool>)
    ensures
        attempt_cap(0) == 1,
        retry_attempts(outcomes, attempt_cap(0)) == 1,
{
}

} // verus!
