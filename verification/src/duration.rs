//! A span of time, counted in nanoseconds, with the saturating arithmetic the
//! queue's retry timing relies on.

use vstd::prelude::*;

verus! {

/// Number of nanoseconds in one second.
pub const NANOS_PER_SEC: u32 = 1_000_000_000;

/// Number of nanoseconds in one millisecond.
pub const NANOS_PER_MILLI: u32 = 1_000_000;

/// The largest representable span, in nanoseconds: `u64::MAX` seconds and
/// `999_999_999` nanoseconds.
pub open spec fn max_nanos() -> nat {
    (u64::MAX as nat) * 1_000_000_000 + 999_999_999
}

/// Multiplication of a span by a factor, saturating at the largest span.
pub open spec fn saturating_mul_nanos(d: nat, k: nat) -> nat {
    if d * k > max_nanos() {
        max_nanos()
    } else {
        d * k
    }
}

/// The smaller of two spans.
pub open spec fn min_nat(a: nat, b: nat) -> nat {
    if a <= b {
        a
    } else {
        b
    }
}

/// The larger of two spans.
pub open spec fn max_nat(a: nat, b: nat) -> nat {
    if a >= b {
        a
    } else {
        b
    }
}

/// A span of time: whole seconds and the nanoseconds below one second. Its view
/// is the whole span in nanoseconds.
#[derive(Clone, Copy, PartialEq, Eq, Structural, Debug, Hash)]
pub struct Duration {
    secs: u64,
    nanos: u32,
}

impl View for Duration {
    type V = nat;

    closed spec fn view(&self) -> nat {
        (self.secs as nat) * 1_000_000_000 + (self.nanos as nat)
    }
}

impl Duration {
    /// The sub-second part always stays below one second.
    #[verifier::type_invariant]
    spec fn well_formed(self) -> bool {
        self.nanos < 1_000_000_000
    }

    /// Builds a span from seconds and nanoseconds; nanoseconds of one second or
    /// more carry into the seconds.
    pub fn new(secs: u64, nanos: u32) -> (d: Duration)
        requires
            secs + nanos / 1_000_000_000 <= u64::MAX,
        ensures
            d@ == secs * 1_000_000_000 + nanos,
    {
        let extra: u32 = nanos / NANOS_PER_SEC;
        let sub: u32 = nanos % NANOS_PER_SEC;
        Duration { secs: secs + extra as u64, nanos: sub }
    }

    /// The empty span.
    pub fn zero() -> (d: Duration)
        ensures
            d@ == 0,
    {
        Duration { secs: 0, nanos: 0 }
    }

    /// The largest representable span.
    pub fn maximum() -> (d: Duration)
        ensures
            d@ == max_nanos(),
    {
        Duration { secs: u64::MAX, nanos: 999_999_999 }
    }

    /// A span of whole seconds.
    pub fn from_secs(secs: u64) -> (d: Duration)
        ensures
            d@ == secs * 1_000_000_000,
    {
        Duration { secs, nanos: 0 }
    }

    /// A span of whole milliseconds.
    pub fn from_millis(millis: u64) -> (d: Duration)
        ensures
            d@ == millis * 1_000_000,
    {
        let secs: u64 = millis / 1000;
        let rest: u64 = millis % 1000;
        let d = Duration { secs, nanos: (rest as u32) * NANOS_PER_MILLI };
        assert(millis == 1000 * secs + rest);
        d
    }

    /// A span of whole nanoseconds.
    pub fn from_nanos(nanos: u64) -> (d: Duration)
        ensures
            d@ == nanos,
    {
        let secs: u64 = nanos / 1_000_000_000;
        let rest: u64 = nanos % 1_000_000_000;
        assert(nanos == 1_000_000_000 * secs + rest);
        Duration { secs, nanos: rest as u32 }
    }

    /// Builds a span from a nanosecond count that fits.
    fn from_total_nanos(total: u128) -> (d: Duration)
        requires
            total <= max_nanos(),
        ensures
            d@ == total,
    {
        let secs: u128 = total / 1_000_000_000;
        let rest: u128 = total % 1_000_000_000;
        assert(total == 1_000_000_000 * secs + rest);
        Duration { secs: secs as u64, nanos: rest as u32 }
    }

    /// The whole seconds of the span.
    pub fn as_secs(&self) -> (s: u64)
        ensures
            s == self@ / 1_000_000_000,
    {
        proof {
            use_type_invariant(self);
        }
        self.secs
    }

    /// The nanoseconds below one second.
    pub fn subsec_nanos(&self) -> (n: u32)
        ensures
            n == self@ % 1_000_000_000,
    {
        proof {
            use_type_invariant(self);
        }
        self.nanos
    }

    /// The whole span in nanoseconds.
    pub fn as_nanos(&self) -> (n: u128)
        ensures
            n == self@,
            n <= max_nanos(),
    {
        proof {
            use_type_invariant(self);
        }
        (self.secs as u128) * 1_000_000_000 + (self.nanos as u128)
    }

    /// Multiplies the span by `rhs`, giving the largest span where the product
    /// would not fit.
    pub fn saturating_mul(self, rhs: u32) -> (d: Duration)
        ensures
            d@ == saturating_mul_nanos(self@, rhs as nat),
    {
        let nanos: u128 = self.as_nanos();
        proof {
            assert(self@ * rhs <= max_nanos() * (u32::MAX as nat)) by (nonlinear_arith)
                requires
                    self@ <= max_nanos(),
                    rhs <= u32::MAX,
            ;
        }
        let total: u128 = nanos * (rhs as u128);
        if total > (u64::MAX as u128) * 1_000_000_000 + 999_999_999 {
            Duration::maximum()
        } else {
            Duration::from_total_nanos(total)
        }
    }

    /// The smaller of the two spans.
    pub fn min(self, other: Duration) -> (d: Duration)
        ensures
            d@ == min_nat(self@, other@),
    {
        if other.as_nanos() < self.as_nanos() {
            other
        } else {
            self
        }
    }

    /// The larger of the two spans.
    pub fn max(self, other: Duration) -> (d: Duration)
        ensures
            d@ == max_nat(self@, other@),
    {
        if other.as_nanos() > self.as_nanos() {
            other
        } else {
            self
        }
    }
}

} // verus!
