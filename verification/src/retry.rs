//! How long a job waits before it is tried again.

use crate::duration::{max_nanos, min_nat, saturating_mul_nanos, Duration};
use vstd::arithmetic::power::pow;
use vstd::prelude::*;

verus! {

/// Two to the power `exp`, saturating at `u32::MAX` (what
/// `2_u32.saturating_pow(exp)` computes).
pub fn saturating_power_of_two(exp: u32) -> (r: u32)
    ensures
        r == (if pow(2, exp as nat) > u32::MAX { u32::MAX as int } else { pow(2, exp as nat) }),
{
    let mut acc: u32 = 1;
    let mut i: u32 = 0;
    assert(pow(2, 0) == 1) by {
        vstd::arithmetic::power::lemma_pow0(2);
    }
    while i < exp
        invariant
            i <= exp,
            acc == pow(2, i as nat),
        decreases exp - i,
    {
        assert(pow(2, (i + 1) as nat) == 2 * pow(2, i as nat)) by {
            vstd::arithmetic::power::lemma_pow_adds(2, i as nat, 1);
            vstd::arithmetic::power::lemma_pow1(2);
        }
        if acc > u32::MAX / 2 {
            proof {
                vstd::arithmetic::power::lemma_pow_increases(2, (i + 1) as nat, exp as nat);
            }
            return u32::MAX;
        }
        acc = acc * 2;
        i = i + 1;
    }
    acc
}

/// Retry timing strategy.
#[derive(Debug, Clone, Copy, PartialEq, Eq, Structural)]
pub enum RetryTiming {
    /// Fixed timing between retries.
    Fixed(Duration),
    /// Exponential back-off with maximum time.
    Backoff {
        /// Initial time in between retries.
        initial: Duration,
        /// Maximum time between retries.
        maximum: Option<Duration>,
    },
}

/// The factor by which a back-off multiplies its initial wait after the given
/// number of executions: `2^(executions - 1)`, where the exponent stops at zero
/// and the power at `u32::MAX`.
pub open spec fn backoff_factor(executions: u32) -> nat {
    let exponent: nat = if executions == 0 { 0 } else { (executions - 1) as nat };
    let p = pow(2, exponent);
    if p > u32::MAX {
        u32::MAX as nat
    } else {
        p as nat
    }
}

impl RetryTiming {
    /// The wait, in nanoseconds, before the next try after `executions`
    /// executions: the fixed wait, or the initial wait times the back-off factor
    /// (saturating), capped by the maximum where there is one.
    pub open spec fn next_wait(self, executions: u32) -> nat {
        match self {
            RetryTiming::Fixed(fixed) => fixed@,
            RetryTiming::Backoff { initial, maximum } => {
                let grown = saturating_mul_nanos(initial@, backoff_factor(executions));
                match maximum {
                    Some(max) => min_nat(grown, max@),
                    None => grown,
                }
            },
        }
    }

    /// Compute the next retry duration based on the number of executions
    /// already done. So for calculating the time after the first execution,
    /// executions is supposed to be one.
    pub fn next_duration(&self, executions: u32) -> (d: Duration)
        ensures
            d@ == self.next_wait(executions),
    {
        match self {
            RetryTiming::Fixed(fixed) => *fixed,
            RetryTiming::Backoff { initial, maximum } => {
                proof {
                    vstd::arithmetic::power::lemma_pow_positive(
                        2,
                        (if executions == 0 { 0 } else { (executions - 1) as nat }),
                    );
                }
                let duration = initial.saturating_mul(saturating_power_of_two(executions.saturating_sub(1)));
                match maximum {
                    Some(max) => duration.min(*max),
                    None => duration,
                }
            },
        }
    }
}

/// A fixed retry timing waits the same time after any number of executions.
pub proof fn lemma_fixed_wait_is_constant(fixed: Duration, e1: u32, e2: u32)
    ensures
        RetryTiming::Fixed(fixed).next_wait(e1) == RetryTiming::Fixed(fixed).next_wait(e2),
{
}

/// A fixed retry timing waits exactly its duration, after any number of
/// executions.
pub proof fn lemma_fixed_wait_is_its_duration(fixed: Duration, executions: u32)
    ensures
        RetryTiming::Fixed(fixed).next_wait(executions) == fixed@,
{
}

/// While nothing saturates, a back-off waits its initial time doubled once per
/// execution after the first, `initial * 2^(executions - 1)`, or its maximum
/// where that is smaller.
pub proof fn lemma_backoff_wait_value(initial: Duration, maximum: Option<Duration>, executions: u32)
    requires
        executions >= 1,
        pow(2, (executions - 1) as nat) <= u32::MAX,
        initial@ * pow(2, (executions - 1) as nat) <= max_nanos(),
    ensures
        ({
            let wait = (RetryTiming::Backoff { initial, maximum }).next_wait(executions);
            let grown = initial@ * pow(2, (executions - 1) as nat);
            match maximum {
                Some(max) => wait <= grown && wait <= max@ && (wait == grown || wait == max@),
                None => wait == grown,
            }
        }),
{
    vstd::arithmetic::power::lemma_pow_positive(2, (executions - 1) as nat);
}

/// A back-off with a maximum never waits longer than that maximum.
pub proof fn lemma_backoff_never_exceeds_maximum(initial: Duration, maximum: Duration, executions: u32)
    ensures
        (RetryTiming::Backoff { initial, maximum: Some(maximum) }).next_wait(executions)
            <= maximum@,
{
}

/// The back-off factor never shrinks as executions grow.
proof fn lemma_backoff_factor_monotone(e1: u32, e2: u32)
    requires
        e1 <= e2,
    ensures
        backoff_factor(e1) <= backoff_factor(e2),
{
    let x1: nat = if e1 == 0 { 0 } else { (e1 - 1) as nat };
    let x2: nat = if e2 == 0 { 0 } else { (e2 - 1) as nat };
    vstd::arithmetic::power::lemma_pow_increases(2, x1, x2);
    vstd::arithmetic::power::lemma_pow_positive(2, x1);
}

/// The wait before the next try never shrinks as executions grow, for every
/// retry timing.
pub proof fn lemma_next_wait_monotone(timing: RetryTiming, e1: u32, e2: u32)
    requires
        e1 <= e2,
    ensures
        timing.next_wait(e1) <= timing.next_wait(e2),
{
    match timing {
        RetryTiming::Fixed(_) => {},
        RetryTiming::Backoff { initial, maximum } => {
            lemma_backoff_factor_monotone(e1, e2);
            vstd::arithmetic::mul::lemma_mul_inequality(
                backoff_factor(e1) as int,
                backoff_factor(e2) as int,
                initial@ as int,
            );
            assert(initial@ * backoff_factor(e1) <= initial@ * backoff_factor(e2)) by (nonlinear_arith)
                requires
                    backoff_factor(e1) * initial@ <= backoff_factor(e2) * initial@,
            ;
        },
    }
}

/// After the first execution a back-off waits its initial time (capped by its
/// maximum), and it waits the same before any execution at all.
pub proof fn lemma_first_retry_waits_initial(initial: Duration, maximum: Option<Duration>)
    requires
        initial@ <= max_nanos(),
    ensures
        (RetryTiming::Backoff { initial, maximum }).next_wait(0) == (RetryTiming::Backoff {
            initial,
            maximum,
        }).next_wait(1),
        (RetryTiming::Backoff { initial, maximum }).next_wait(1) == (match maximum {
            Some(max) => min_nat(initial@, max@),
            None => initial@,
        }),
{
    assert(pow(2, 0) == 1) by {
        vstd::arithmetic::power::lemma_pow0(2);
    }
    assert(backoff_factor(1) == 1);
    assert(backoff_factor(0) == 1);
    assert(saturating_mul_nanos(initial@, 1) == initial@);
}

/// Without a maximum, and while nothing saturates, each further execution
/// doubles the wait of a back-off.
pub proof fn lemma_backoff_doubles(initial: Duration, executions: u32)
    requires
        1 <= executions < u32::MAX,
        pow(2, executions as nat) <= u32::MAX,
        initial@ * pow(2, executions as nat) <= max_nanos(),
    ensures
        (RetryTiming::Backoff { initial, maximum: None }).next_wait((executions + 1) as u32) == 2
            * (RetryTiming::Backoff { initial, maximum: None }).next_wait(executions),
{
    let x: nat = (executions - 1) as nat;
    vstd::arithmetic::power::lemma_pow_positive(2, x);
    assert(pow(2, executions as nat) == 2 * pow(2, x)) by {
        vstd::arithmetic::power::lemma_pow_adds(2, 1, x);
        vstd::arithmetic::power::lemma_pow1(2);
    }
    assert(initial@ * pow(2, executions as nat) == 2 * (initial@ * pow(2, x))) by (nonlinear_arith)
        requires
            pow(2, executions as nat) == 2 * pow(2, x),
    ;
    assert(initial@ * pow(2, x) <= initial@ * pow(2, executions as nat)) by (nonlinear_arith)
        requires
            pow(2, executions as nat) == 2 * pow(2, x),
            pow(2, x) > 0,
    ;
}

} // verus!
