//! Exponential-backoff retry decisions.
//!
//! The executor is a small state machine: after each attempt the caller
//! hands in the outcome, and the machine says whether to finish (with that
//! very outcome) or to wait a given number of milliseconds and try again.
use vstd::prelude::*;

verus! {

/// Limits of a retry run: `max_retries + 1` attempts in total, with pauses
/// that start at `initial_delay_ms` and double up to `max_delay_ms`.
#[derive(Clone, Copy, Debug)]
pub struct RetryConfig {
    pub max_retries: u32,
    pub initial_delay_ms: u64,
    pub max_delay_ms: u64,
}

impl Default for RetryConfig {
    fn default() -> (r: Self)
        ensures
            r.max_retries == 3,
            r.initial_delay_ms == 1000,
            r.max_delay_ms == 8000,
    {
        RetryConfig { max_retries: 3, initial_delay_ms: 1000, max_delay_ms: 8000 }
    }
}

pub open spec fn pow2(n: nat) -> nat
    decreases n,
{
    if n == 0 {
        1
    } else {
        2 * pow2((n - 1) as nat)
    }
}

pub open spec fn min_nat(a: nat, b: nat) -> nat {
    if a <= b {
        a
    } else {
        b
    }
}

/// The pause taken before attempt `i` (attempts counted from 0, `i >= 1`):
/// `min(initial_delay_ms * 2^(i-1), max_delay_ms)`.
pub open spec fn backoff_delay(config: RetryConfig, i: nat) -> nat {
    min_nat(config.initial_delay_ms as nat * pow2((i - 1) as nat), config.max_delay_ms as nat)
}

/// Where a run stands: the attempt about to be judged, and the pause that
/// would precede the next one.
#[derive(Clone, Copy, Debug)]
pub struct RetryState {
    pub attempt: u32,
    pub delay_ms: u64,
}

/// What the caller does after an attempt.
pub enum RetryStep<T, E> {
    /// Stop and hand this result to the caller of the retried operation.
    Finish(Result<T, E>),
    /// Sleep this many milliseconds, then invoke the operation again.
    Wait(u64),
}

/// Whether a failed attempt is followed by another one.
pub open spec fn retries_after_failure(config: RetryConfig, attempt: nat, retryable: bool) -> bool {
    retryable && attempt < config.max_retries
}

impl RetryState {
    /// The state is the one reached at attempt `attempt` of a run under `config`.
    pub open spec fn on_track(self, config: RetryConfig) -> bool {
        &&& self.attempt <= config.max_retries
        &&& self.delay_ms as nat == backoff_delay(config, self.attempt as nat + 1)
    }

    /// The state before the first attempt.
    pub fn start(config: &RetryConfig) -> (r: RetryState)
        ensures
            r.attempt == 0,
            r.on_track(*config),
    {
        let d = if config.initial_delay_ms <= config.max_delay_ms {
            config.initial_delay_ms
        } else {
            config.max_delay_ms
        };
        proof {
            assert(pow2(0) == 1);
            assert(config.initial_delay_ms as nat * 1 == config.initial_delay_ms as nat);
        }
        RetryState { attempt: 0, delay_ms: d }
    }

    /// Judges the outcome of the current attempt. A success always finishes
    /// with the value; a failure finishes with the error, unchanged, when it
    /// is not retryable or the attempt was the last allowed; otherwise the
    /// caller waits the current backoff pause and the machine moves on.
    pub fn on_outcome<T, E>(&mut self, config: &RetryConfig, outcome: Result<T, E>, retryable: bool) -> (step: RetryStep<T, E>)
        requires
            old(self).on_track(*config),
        ensures
            final(self).on_track(*config),
            match outcome {
                Ok(v) => step == RetryStep::<T, E>::Finish(Ok(v)) && *final(self) == *old(self),
                Err(e) => if retries_after_failure(*config, old(self).attempt as nat, retryable) {
                    &&& step == RetryStep::<T, E>::Wait(old(self).delay_ms)
                    &&& final(self).attempt == old(self).attempt + 1
                } else {
                    step == RetryStep::<T, E>::Finish(Err(e)) && *final(self) == *old(self)
                },
            },
    {
        match outcome {
            Ok(v) => RetryStep::Finish(Ok(v)),
            Err(e) => {
                if !retryable || self.attempt >= config.max_retries {
                    RetryStep::Finish(Err(e))
                } else {
                    let wait = self.delay_ms;
                    let next = Self::doubled_delay(config, self.attempt, wait);
                    self.attempt = self.attempt + 1;
                    self.delay_ms = next;
                    RetryStep::Wait(wait)
                }
            },
        }
    }

    /// The pause after `delay`, doubled and capped at `max_delay_ms`.
    fn doubled_delay(config: &RetryConfig, attempt: u32, delay: u64) -> (r: u64)
        requires
            delay as nat == backoff_delay(*config, attempt as nat + 1),
        ensures
            r as nat == backoff_delay(*config, attempt as nat + 2),
    {
        let max = config.max_delay_ms;
        let ghost a = config.initial_delay_ms as nat;
        let ghost p = pow2(attempt as nat);
        proof {
            assert(pow2((attempt as nat + 1) as nat) == 2 * p);
            assert(a * (2 * p) == 2 * (a * p)) by (nonlinear_arith);
        }
        if delay > max / 2 {
            max
        } else {
            let d2 = delay * 2;
            if d2 <= max {
                d2
            } else {
                max
            }
        }
    }
}

/// Number of invocations in a run whose attempt `i` succeeds exactly when
/// `succeeds(i)`, counted from attempt `from`, every failure being retryable.
pub open spec fn invocations(config: RetryConfig, from: nat, succeeds: spec_fn(nat) -> bool) -> nat
    decreases config.max_retries - from,
{
    if succeeds(from) || !retries_after_failure(config, from, true) {
        1
    } else {
        1 + invocations(config, from + 1, succeeds)
    }
}

/// An operation that always fails is invoked exactly `max_retries + 1` times.
pub proof fn lemma_always_failing_invocations(config: RetryConfig)
    ensures
        invocations(config, 0, |i: nat| false) == config.max_retries as nat + 1,
{
    lemma_failing_from(config, 0);
}

proof fn lemma_failing_from(config: RetryConfig, from: nat)
    requires
        from <= config.max_retries,
    ensures
        invocations(config, from, |i: nat| false) == config.max_retries as nat + 1 - from,
    decreases config.max_retries - from,
{
    if from < config.max_retries {
        lemma_failing_from(config, from + 1);
    }
}

/// An operation that first succeeds on attempt `k - 1` (the `k`-th call,
/// `k <= max_retries + 1`) is invoked exactly `k` times.
pub proof fn lemma_first_success_invocations(config: RetryConfig, k: nat, succeeds: spec_fn(nat) -> bool)
    requires
        1 <= k <= config.max_retries as nat + 1,
        succeeds((k - 1) as nat),
        forall|i: nat| i < k - 1 ==> !#[trigger] succeeds(i),
    ensures
        invocations(config, 0, succeeds) == k,
{
    lemma_success_from(config, 0, k, succeeds);
}

proof fn lemma_success_from(config: RetryConfig, from: nat, k: nat, succeeds: spec_fn(nat) -> bool)
    requires
        from <= k - 1,
        1 <= k <= config.max_retries as nat + 1,
        succeeds((k - 1) as nat),
        forall|i: nat| i < k - 1 ==> !#[trigger] succeeds(i),
    ensures
        invocations(config, from, succeeds) == k - from,
    decreases k - 1 - from,
{
    if from < k - 1 {
        lemma_success_from(config, from + 1, k, succeeds);
    }
}

} // verus!
