//! Retrying with growing pauses. The random part of a pause comes from the
//! `rand` crate.

use vstd::prelude::*;

verus! {

/// Functions for work over the network.
#[derive(Debug, Clone, Copy)]
pub struct NetworkUtils;

/// How often to try, and how long to wait at first.
#[derive(Debug, Clone, Copy, PartialEq, Eq, Structural)]
pub struct RetryPolicy {
    pub attempts: u32,
    pub base_delay_ms: u64,
}

/// What to do after a failed attempt.
#[derive(Debug, Clone, Copy, PartialEq, Eq, Structural)]
pub enum RetryStep {
    /// Wait so many milliseconds, then try again.
    Wait { delay_ms: u64 },
    /// Give up with the last error.
    GiveUp,
}

/// Two to the power `i`, held at the largest 64-bit value.
pub open spec fn doubled(i: nat) -> u64
    decreases i,
{
    if i == 0 {
        1
    } else if doubled((i - 1) as nat) > u64::MAX / 2 {
        u64::MAX
    } else {
        (doubled((i - 1) as nat) * 2) as u64
    }
}

/// `a * b`, held at the largest 64-bit value.
pub open spec fn capped_product(a: u64, b: u64) -> u64 {
    if a * b > u64::MAX {
        u64::MAX
    } else {
        (a * b) as u64
    }
}

/// `a + b`, held at the largest 64-bit value.
pub open spec fn capped_total(a: u64, b: u64) -> u64 {
    if a + b > u64::MAX {
        u64::MAX
    } else {
        (a + b) as u64
    }
}

/// The pause after failed attempt `attempt`, counted from zero: the first
/// pause doubled with every attempt, plus the random part.
pub open spec fn pause(policy: RetryPolicy, attempt: u32, jitter: u64) -> u64 {
    capped_total(capped_product(policy.base_delay_ms, doubled(attempt as nat)), jitter)
}

/// The random part of a pause lies below this: half the first pause, at
/// least one.
pub open spec fn jitter_bound(policy: RetryPolicy) -> u64 {
    if policy.base_delay_ms / 2 < 1 {
        1
    } else {
        policy.base_delay_ms / 2
    }
}

/// What follows failed attempt `attempt`, counted from zero.
pub open spec fn after_failure(policy: RetryPolicy, attempt: u32, jitter: u64) -> RetryStep {
    if attempt + 1 < policy.attempts {
        RetryStep::Wait { delay_ms: pause(policy, attempt, jitter) }
    } else {
        RetryStep::GiveUp
    }
}

/// Once the doubling has reached the largest value it stays there.
pub proof fn lemma_doubled_stays_capped(i: nat, j: nat)
    requires
        i <= j,
        doubled(i) == u64::MAX,
    ensures
        doubled(j) == u64::MAX,
    decreases j - i,
{
    if i < j {
        lemma_doubled_stays_capped(i, (j - 1) as nat);
    }
}

/// `rand::thread_rng`, then `Rng::gen_range` over `0..bound`: a number
/// picked at random. Whatever is picked lies below `bound`; no more is
/// claimed.
#[verifier::external_body]
pub(crate) fn random_below(bound: u64) -> (r: u64)
    requires
        bound > 0,
    ensures
        r < bound,
{
    rand::Rng::gen_range(&mut rand::thread_rng(), 0..bound)
}

/// Two to the power `i`, held at the largest 64-bit value.
pub fn power_of_two(i: u32) -> (r: u64)
    ensures
        r == doubled(i as nat),
{
    let mut r: u64 = 1;
    let mut k: u32 = 0;
    while k < i && r != u64::MAX
        invariant
            k <= i,
            r == doubled(k as nat),
        decreases i - k,
    {
        r = if r > u64::MAX / 2 {
            u64::MAX
        } else {
            r * 2
        };
        k = k + 1;
    }
    proof {
        if k < i {
            lemma_doubled_stays_capped(k as nat, i as nat);
        }
    }
    r
}

impl RetryPolicy {
    /// The pause after failed attempt `attempt`, counted from zero.
    pub fn delay(&self, attempt: u32, jitter: u64) -> (r: u64)
        ensures
            r == pause(*self, attempt, jitter),
    {
        let factor = power_of_two(attempt);
        let grown: u64 = if factor != 0 && self.base_delay_ms > u64::MAX / factor {
            assert(self.base_delay_ms * factor > u64::MAX) by (nonlinear_arith)
                requires
                    factor > 0,
                    self.base_delay_ms > u64::MAX / factor,
            ;
            u64::MAX
        } else {
            assert(self.base_delay_ms * factor <= u64::MAX) by (nonlinear_arith)
                requires
                    factor == 0 || self.base_delay_ms <= u64::MAX / factor,
            ;
            self.base_delay_ms * factor
        };
        if grown > u64::MAX - jitter {
            u64::MAX
        } else {
            grown + jitter
        }
    }

    /// What follows failed attempt `attempt`, counted from zero: another
    /// attempt after a pause while attempts are left, else the end.
    pub fn next_step(&self, attempt: u32, jitter: u64) -> (r: RetryStep)
        ensures
            r == after_failure(*self, attempt, jitter),
    {
        if attempt < u32::MAX && attempt + 1 < self.attempts {
            RetryStep::Wait { delay_ms: self.delay(attempt, jitter) }
        } else {
            RetryStep::GiveUp
        }
    }

    /// The bound below which the random part of a pause lies.
    pub fn jitter_limit(&self) -> (r: u64)
        ensures
            r == jitter_bound(*self),
            r > 0,
    {
        if self.base_delay_ms / 2 < 1 {
            1
        } else {
            self.base_delay_ms / 2
        }
    }
}

impl NetworkUtils {
    /// What follows failed attempt `attempt`, counted from zero, of
    /// `attempts` attempts: a pause with its random part drawn afresh, or
    /// the end. Whatever is drawn, the pause is the one of the policy for
    /// some random part below the bound.
    pub fn retry(attempt: u32, attempts: u32, base_delay_ms: u64) -> (r: RetryStep)
        ensures
            exists|jitter: u64|
                jitter < jitter_bound(RetryPolicy { attempts, base_delay_ms }) && r
                    == #[trigger] after_failure(
                    RetryPolicy { attempts, base_delay_ms },
                    attempt,
                    jitter,
                ),
    {
        let policy = RetryPolicy { attempts, base_delay_ms };
        let jitter = random_below(policy.jitter_limit());
        policy.next_step(attempt, jitter)
    }
}

} // verus!
