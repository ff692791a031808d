//! Retry policy: which failures are worth another attempt, and how long to
//! wait before it.  Delays are in milliseconds throughout.
use vstd::prelude::*;
use vstd::arithmetic::power::pow;
use vstd::arithmetic::power::lemma_pow_increases;
use vstd::arithmetic::power::lemma0_pow;
use crate::text::contains_ci;
use crate::text::str_contains_ci;
use rand::Rng;

verus! {

/// The kinds of transient failure that can trigger a retry.
#[derive(Debug, Clone, Copy, PartialEq, Eq, Structural)]
pub enum ErrorType {
    NetworkTimeout,
    ConnectionReset,
    ChunkReadFailed,
    TemporaryFailure,
}

/// How the delay before attempt `n + 1` is computed from `n`.
#[derive(Debug, Clone)]
pub enum BackoffStrategy {
    /// `base * multiplier^attempt`, capped at the configured maximum.
    Exponential { base: u64, multiplier: u64 },
    /// `base_delay + increment * attempt`, capped at the maximum.
    Linear { increment: u64 },
    /// The same delay for every attempt, still capped.
    Fixed { delay: u64 },
}

/// Which error kinds are retried, and with what backoff.
#[derive(Debug, Clone)]
pub struct RetryPolicy {
    pub retry_on: Vec<ErrorType>,
    pub backoff_strategy: BackoffStrategy,
}

/// Drives retry decisions: maximum attempt count, delay bounds, and the
/// retry policy.  All durations are milliseconds.
#[derive(Debug, Clone)]
pub struct RetryManager {
    pub max_retries: u32,
    pub base_delay: u64,
    pub max_delay: u64,
    pub timeout: u64,
    pub retry_policy: RetryPolicy,
}

/// One message of an error's causal chain mentions a keyword of the given
/// retry kind (ASCII-case-insensitively).
pub open spec fn message_matches_kind(msg: Seq<char>, kind: ErrorType) -> bool {
    match kind {
        ErrorType::NetworkTimeout => {
            ||| contains_ci(msg, "timeout"@)
            ||| contains_ci(msg, "timed out"@)
        },
        ErrorType::ConnectionReset => {
            ||| contains_ci(msg, "connection reset"@)
            ||| contains_ci(msg, "connection refused"@)
            ||| contains_ci(msg, "broken pipe"@)
            ||| contains_ci(msg, "econnreset"@)
        },
        ErrorType::ChunkReadFailed => {
            ||| contains_ci(msg, "chunk"@)
            ||| contains_ci(msg, "incomplete read"@)
            ||| contains_ci(msg, "unexpected eof"@)
            ||| contains_ci(msg, "failed to read download chunk"@)
        },
        ErrorType::TemporaryFailure => {
            ||| contains_ci(msg, "temporary"@)
            ||| contains_ci(msg, "service unavailable"@)
            ||| contains_ci(msg, "too many requests"@)
            ||| contains_ci(msg, "429"@)
            ||| contains_ci(msg, "502"@)
            ||| contains_ci(msg, "503"@)
            ||| contains_ci(msg, "504"@)
        },
    }
}

/// Some message of the chain matches some enabled retry kind.
pub open spec fn retryable_chain(chain: Seq<Seq<char>>, retry_on: Seq<ErrorType>) -> bool {
    exists|m: int, i: int|
        0 <= m < chain.len() && 0 <= i < retry_on.len() && message_matches_kind(
            chain[m],
            retry_on[i],
        )
}

/// With no retry kinds enabled, no error chain is retryable, whatever it
/// contains.
pub proof fn lemma_empty_policy_never_retries(chain: Seq<Seq<char>>, retry_on: Seq<ErrorType>)
    requires
        retry_on.len() == 0,
    ensures
        !retryable_chain(chain, retry_on),
{
}

/// Does this chain message mention a keyword of the kind?
fn message_matches_kind_exec(msg: &str, kind: &ErrorType) -> (r: bool)
    ensures
        r == message_matches_kind(msg@, *kind),
{
    match kind {
        ErrorType::NetworkTimeout => {
            str_contains_ci(msg, "timeout") || str_contains_ci(msg, "timed out")
        },
        ErrorType::ConnectionReset => {
            str_contains_ci(msg, "connection reset") || str_contains_ci(msg, "connection refused")
                || str_contains_ci(msg, "broken pipe") || str_contains_ci(msg, "econnreset")
        },
        ErrorType::ChunkReadFailed => {
            str_contains_ci(msg, "chunk") || str_contains_ci(msg, "incomplete read")
                || str_contains_ci(msg, "unexpected eof") || str_contains_ci(
                msg,
                "failed to read download chunk",
            )
        },
        ErrorType::TemporaryFailure => {
            str_contains_ci(msg, "temporary") || str_contains_ci(msg, "service unavailable")
                || str_contains_ci(msg, "too many requests") || str_contains_ci(msg, "429")
                || str_contains_ci(msg, "502") || str_contains_ci(msg, "503") || str_contains_ci(
                msg,
                "504",
            )
        },
    }
}

/// Relies on `rand::Rng::gen_range` over `rand::thread_rng()`: returns a
/// uniformly distributed value within the given inclusive range.  Nothing
/// more is assumed of the value.
#[verifier::external_body]
fn random_i64_inclusive(lo: i64, hi: i64) -> (r: i64)
    requires
        lo <= hi,
    ensures
        lo <= r <= hi,
{
    rand::thread_rng().gen_range(lo..=hi)
}

impl RetryManager {
    /// The delay before the retry that follows attempt `attempt`, in
    /// milliseconds, as a mathematical value: the strategy's raw delay,
    /// capped at `max_delay`.
    pub open spec fn delay_spec(&self, attempt: u32) -> int {
        let raw = match self.retry_policy.backoff_strategy {
            BackoffStrategy::Exponential { base, multiplier } => base as int * pow(
                multiplier as int,
                attempt as nat,
            ),
            BackoffStrategy::Linear { increment } => self.base_delay as int + increment as int
                * attempt as int,
            BackoffStrategy::Fixed { delay } => delay as int,
        };
        if raw > self.max_delay as int {
            self.max_delay as int
        } else {
            raw
        }
    }

    /// The magnitude of the random jitter applied to a non-zero delay:
    /// a quarter of the delay, floored at one millisecond.
    pub open spec fn jitter_bound(base: int) -> int {
        if base / 4 > 1 {
            base / 4
        } else {
            1
        }
    }

    /// Creates a manager with the default configuration: 3 retries,
    /// 1 s base delay, 60 s cap, 30 s operation timeout.
    pub fn new() -> (r: Self)
        ensures
            r.max_retries == 3,
            r.base_delay == 1000,
            r.max_delay == 60000,
            r.timeout == 30000,
            r.retry_policy.retry_on@ == default_retry_kinds(),
            r.retry_policy.backoff_strategy is Exponential,
            r.retry_policy.backoff_strategy matches BackoffStrategy::Exponential {
                base,
                multiplier,
            } && base == 1000 && multiplier == 2,
    {
        Self {
            max_retries: 3,
            base_delay: 1000,
            max_delay: 60000,
            timeout: 30000,
            retry_policy: RetryPolicy::default(),
        }
    }

    /// Creates a manager with custom limits and the default retry policy.
    pub fn with_config(max_retries: u32, base_delay: u64, max_delay: u64, timeout: u64) -> (r: Self)
        ensures
            r.max_retries == max_retries,
            r.base_delay == base_delay,
            r.max_delay == max_delay,
            r.timeout == timeout,
            r.retry_policy.retry_on@ == default_retry_kinds(),
            r.retry_policy.backoff_strategy matches BackoffStrategy::Exponential {
                base,
                multiplier,
            } && base == 1000 && multiplier == 2,
    {
        Self {
            max_retries,
            base_delay,
            max_delay,
            timeout,
            retry_policy: RetryPolicy::default(),
        }
    }

    /// Creates a manager tuned for network transfers: 5 attempts,
    /// exponential backoff from 1 s doubling per attempt, capped at 30 s.
    pub fn for_network_operations() -> (r: Self)
        ensures
            r.max_retries == 5,
            r.base_delay == 1000,
            r.max_delay == 30000,
            r.timeout == 30000,
            r.retry_policy.retry_on@ == default_retry_kinds(),
            r.retry_policy.backoff_strategy matches BackoffStrategy::Exponential {
                base,
                multiplier,
            } && base == 1000 && multiplier == 2,
    {
        Self {
            max_retries: 5,
            base_delay: 1000,
            max_delay: 30000,
            timeout: 30000,
            retry_policy: RetryPolicy {
                retry_on: vec![
                    ErrorType::NetworkTimeout,
                    ErrorType::ConnectionReset,
                    ErrorType::ChunkReadFailed,
                    ErrorType::TemporaryFailure,
                ],
                backoff_strategy: BackoffStrategy::Exponential { base: 1000, multiplier: 2 },
            },
        }
    }

    /// Replaces the retry policy, keeping the other limits.
    pub fn with_policy(self, policy: RetryPolicy) -> (r: Self)
        ensures
            r.max_retries == self.max_retries,
            r.base_delay == self.base_delay,
            r.max_delay == self.max_delay,
            r.timeout == self.timeout,
            r.retry_policy == policy,
    {
        Self { retry_policy: policy, ..self }
    }

    /// Decides whether an error is worth retrying: true exactly when some
    /// message of its causal chain mentions a keyword of an enabled retry
    /// kind.
    pub fn should_retry(&self, chain: &Vec<String>) -> (r: bool)
        ensures
            r == retryable_chain(chain.deep_view(), self.retry_policy.retry_on@),
    {
        let ghost gchain = chain.deep_view();
        let ghost kinds = self.retry_policy.retry_on@;
        let mut m: usize = 0;
        while m < chain.len()
            invariant
                gchain == chain.deep_view(),
                kinds == self.retry_policy.retry_on@,
                gchain.len() == chain@.len(),
                0 <= m <= chain@.len(),
                forall|m0: int, i: int|
                    0 <= m0 < m && 0 <= i < kinds.len() ==> !message_matches_kind(
                        gchain[m0],
                        kinds[i],
                    ),
            decreases chain@.len() - m,
        {
            let msg: &String = &chain[m];
            let mut i: usize = 0;
            while i < self.retry_policy.retry_on.len()
                invariant
                    gchain == chain.deep_view(),
                    kinds == self.retry_policy.retry_on@,
                    gchain.len() == chain@.len(),
                    0 <= m < chain@.len(),
                    msg@ == chain@[m as int]@,
                    0 <= i <= kinds.len(),
                    forall|i0: int|
                        0 <= i0 < i ==> !message_matches_kind(gchain[m as int], kinds[i0]),
                decreases kinds.len() - i,
            {
                let kind = &self.retry_policy.retry_on[i];
                if message_matches_kind_exec(msg.as_str(), kind) {
                    proof {
                        assert(gchain[m as int] == chain@[m as int]@);
                        assert(message_matches_kind(gchain[m as int], kinds[i as int]));
                    }
                    return true;
                }
                i += 1;
            }
            m += 1;
        }
        false
    }

    /// Computes the delay before the next retry: the backoff strategy's
    /// value for this attempt, capped at `max_delay`.
    pub fn calculate_delay(&self, attempt: u32) -> (r: u64)
        ensures
            r as int == self.delay_spec(attempt),
            r <= self.max_delay,
    {
        match &self.retry_policy.backoff_strategy {
            BackoffStrategy::Exponential { base, multiplier } => {
                let base: u64 = *base;
                let multiplier: u64 = *multiplier;
                if multiplier == 0 && attempt > 0 {
                    proof {
                        lemma0_pow(attempt as nat);
                    }
                    return 0;
                }
                if multiplier == 0 {
                    // attempt == 0: raw == base
                    proof {
                        vstd::arithmetic::power::lemma_pow0(multiplier as int);
                    }
                    if base > self.max_delay {
                        return self.max_delay;
                    }
                    return base;
                }
                proof {
                    vstd::arithmetic::power::lemma_pow0(multiplier as int);
                }
                let mut acc: u64 = base;
                let mut k: u32 = 0;
                while k < attempt
                    invariant
                        multiplier >= 1,
                        0 <= k <= attempt,
                        acc as int == base as int * pow(multiplier as int, k as nat),
                        self.retry_policy.backoff_strategy matches BackoffStrategy::Exponential {
                            base: b,
                            multiplier: m,
                        } && b == base && m == multiplier,
                    decreases attempt - k,
                {
                    if acc >= self.max_delay {
                        proof {
                            lemma_pow_increases(multiplier as nat, k as nat, attempt as nat);
                            assert(base as int * pow(multiplier as int, k as nat) <= base as int
                                * pow(multiplier as int, attempt as nat)) by (nonlinear_arith)
                                requires
                                    base >= 0,
                                    pow(multiplier as int, k as nat) <= pow(
                                        multiplier as int,
                                        attempt as nat,
                                    ),
                            ;
                        }
                        return self.max_delay;
                    }
                    match acc.checked_mul(multiplier) {
                        Some(v) => {
                            proof {
                                assert(v as int == base as int * pow(
                                    multiplier as int,
                                    (k + 1) as nat,
                                )) by {
                                    assert(pow(multiplier as int, (k + 1) as nat) == pow(
                                        multiplier as int,
                                        k as nat,
                                    ) * multiplier as int) by {
                                        vstd::arithmetic::power::lemma_pow1(multiplier as int);
                                        vstd::arithmetic::power::lemma_pow_adds(
                                            multiplier as int,
                                            k as nat,
                                            1nat,
                                        );
                                    }
                                    assert(acc as int * multiplier as int == base as int * (pow(
                                        multiplier as int,
                                        k as nat,
                                    ) * multiplier as int)) by (nonlinear_arith)
                                        requires
                                            acc as int == base as int * pow(
                                                multiplier as int,
                                                k as nat,
                                            ),
                                    ;
                                }
                            }
                            acc = v;
                        },
                        None => {
                            proof {
                                lemma_pow_increases(multiplier as nat, (k + 1) as nat, attempt as nat);
                                assert(pow(multiplier as int, (k + 1) as nat) == pow(
                                    multiplier as int,
                                    k as nat,
                                ) * multiplier as int) by {
                                    vstd::arithmetic::power::lemma_pow1(multiplier as int);
                                    vstd::arithmetic::power::lemma_pow_adds(
                                        multiplier as int,
                                        k as nat,
                                        1nat,
                                    );
                                }
                                assert(base as int * pow(multiplier as int, attempt as nat) >= acc
                                    as int * multiplier as int) by (nonlinear_arith)
                                    requires
                                        base >= 0,
                                        acc as int == base as int * pow(multiplier as int, k as nat),
                                        pow(multiplier as int, (k + 1) as nat) == pow(
                                            multiplier as int,
                                            k as nat,
                                        ) * multiplier as int,
                                        pow(multiplier as int, (k + 1) as nat) <= pow(
                                            multiplier as int,
                                            attempt as nat,
                                        ),
                                ;
                            }
                            return self.max_delay;
                        },
                    }
                    k += 1;
                }
                if acc > self.max_delay {
                    self.max_delay
                } else {
                    acc
                }
            },
            BackoffStrategy::Linear { increment } => {
                let step = match increment.checked_mul(attempt as u64) {
                    Some(v) => v,
                    None => {
                        return self.max_delay;
                    },
                };
                match self.base_delay.checked_add(step) {
                    Some(raw) => {
                        if raw > self.max_delay {
                            self.max_delay
                        } else {
                            raw
                        }
                    },
                    None => self.max_delay,
                }
            },
            BackoffStrategy::Fixed { delay } => {
                if *delay > self.max_delay {
                    self.max_delay
                } else {
                    *delay
                }
            },
        }
    }

    /// Computes a jittered retry delay: the strategy's delay perturbed by a
    /// uniformly random offset within a quarter of its value (at least one
    /// millisecond), clamped to `max_delay`.  A zero delay stays zero; a
    /// delay of at least 4 ms stays within 25 percent of the unjittered
    /// value.
    pub fn calculate_delay_with_jitter(&self, attempt: u32) -> (r: u64)
        ensures
            r <= self.max_delay,
            self.delay_spec(attempt) == 0 ==> r == 0,
            self.delay_spec(attempt) > 0 ==> self.delay_spec(attempt) - Self::jitter_bound(
                self.delay_spec(attempt),
            ) <= r as int <= self.delay_spec(attempt) + Self::jitter_bound(self.delay_spec(attempt)),
            self.delay_spec(attempt) >= 4 ==> 4 * (if r as int >= self.delay_spec(attempt) {
                r as int - self.delay_spec(attempt)
            } else {
                self.delay_spec(attempt) - r as int
            }) <= self.delay_spec(attempt),
    {
        let base = self.calculate_delay(attempt);
        if base == 0 {
            return 0;
        }
        let quarter = base / 4;
        let jitter_range: u64 = if quarter > 1 {
            quarter
        } else {
            1
        };
        let offset = random_i64_inclusive(-(jitter_range as i64), jitter_range as i64);
        let adjusted: u64 = if offset < 0 {
            let magnitude = (-offset) as u64;
            base - magnitude
        } else {
            base.saturating_add(offset as u64)
        };
        if adjusted > self.max_delay {
            self.max_delay
        } else {
            adjusted
        }
    }
}

/// The default retry kinds: every transient failure kind.
pub open spec fn default_retry_kinds() -> Seq<ErrorType> {
    seq![
        ErrorType::NetworkTimeout,
        ErrorType::ConnectionReset,
        ErrorType::ChunkReadFailed,
        ErrorType::TemporaryFailure,
    ]
}

impl Default for BackoffStrategy {
    /// Exponential backoff from one second, doubling per attempt.
    fn default() -> (r: Self)
        ensures
            r matches BackoffStrategy::Exponential { base, multiplier } && base == 1000
                && multiplier == 2,
    {
        BackoffStrategy::Exponential { base: 1000, multiplier: 2 }
    }
}

impl Default for RetryPolicy {
    /// Retries every transient kind, with the default backoff.
    fn default() -> (r: Self)
        ensures
            r.retry_on@ == default_retry_kinds(),
            r.backoff_strategy matches BackoffStrategy::Exponential { base, multiplier } && base
                == 1000 && multiplier == 2,
    {
        let r = RetryPolicy {
            retry_on: vec![
                ErrorType::NetworkTimeout,
                ErrorType::ConnectionReset,
                ErrorType::ChunkReadFailed,
                ErrorType::TemporaryFailure,
            ],
            backoff_strategy: BackoffStrategy::Exponential { base: 1000, multiplier: 2 },
        };
        proof {
            assert(r.retry_on@ =~= default_retry_kinds());
        }
        r
    }
}

impl Default for RetryManager {
    /// Same configuration as `RetryManager::new`.
    fn default() -> (r: Self)
        ensures
            r.max_retries == 3,
            r.base_delay == 1000,
            r.max_delay == 60000,
            r.timeout == 30000,
            r.retry_policy.retry_on@ == default_retry_kinds(),
    {
        RetryManager::new()
    }
}

/// Exponential backoff is monotone: with a multiplier of at least one, the
/// capped delay never decreases as the attempt number grows.
pub proof fn lemma_exponential_backoff_monotone(m: RetryManager, n1: u32, n2: u32)
    requires
        n1 <= n2,
        m.retry_policy.backoff_strategy matches BackoffStrategy::Exponential {
            base,
            multiplier,
        } && multiplier >= 1,
    ensures
        m.delay_spec(n1) <= m.delay_spec(n2),
{
    let (base, multiplier) = match m.retry_policy.backoff_strategy {
        BackoffStrategy::Exponential { base, multiplier } => (base, multiplier),
        _ => arbitrary(),
    };
    lemma_pow_increases(multiplier as nat, n1 as nat, n2 as nat);
    assert(base as int * pow(multiplier as int, n1 as nat) <= base as int * pow(
        multiplier as int,
        n2 as nat,
    )) by (nonlinear_arith)
        requires
            base >= 0,
            pow(multiplier as int, n1 as nat) <= pow(multiplier as int, n2 as nat),
    ;
}

/// The capped exponential delay is exactly `min(cap, base * multiplier^n)`.
pub proof fn lemma_exponential_delay_value(m: RetryManager, n: u32)
    requires
        m.retry_policy.backoff_strategy is Exponential,
    ensures
        m.delay_spec(n) == vstd::math::min(
            m.max_delay as int,
            (m.retry_policy.backoff_strategy->Exponential_base as int) * pow(
                m.retry_policy.backoff_strategy->Exponential_multiplier as int,
                n as nat,
            ),
        ),
{
}

} // verus!
