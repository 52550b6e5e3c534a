//! A span of time with nanosecond precision, covering the same range as
//! `std::time::Duration` (`0 ..= u64::MAX` seconds plus `999_999_999` ns),
//! with the saturating arithmetic the retry policy needs.

use vstd::prelude::*;

verus! {

/// Nanoseconds in one second.
pub const NANOS_PER_SEC: u128 = 1_000_000_000;
/// Nanoseconds in one millisecond.
pub const NANOS_PER_MILLI: u128 = 1_000_000;
/// Nanoseconds in the longest representable span.
pub const MAX_NANOS: u128 = 18_446_744_073_709_551_615_999_999_999;

/// A span of time.
#[derive(Debug, Clone, Copy, PartialEq, Eq, Structural, Hash)]
pub struct Duration {
    nanos: u128,
}

impl View for Duration {
    type V = nat;

    /// The span in nanoseconds.
    open spec fn view(&self) -> nat {
        self.spec_nanos() as nat
    }
}

impl Duration {
    /// Nanoseconds held.
    pub closed spec fn spec_nanos(&self) -> u128 {
        self.nanos
    }

    #[verifier::type_invariant]
    spec fn in_range(self) -> bool {
        self.nanos <= MAX_NANOS
    }

    /// The empty span.
    pub fn zero() -> (d: Duration)
        ensures
            d@ == 0,
    {
        Duration { nanos: 0 }
    }

    /// The longest representable span.
    pub fn max_value() -> (d: Duration)
        ensures
            d@ == MAX_NANOS,
    {
        Duration { nanos: MAX_NANOS }
    }

    /// `secs` seconds.
    pub fn from_secs(secs: u64) -> (d: Duration)
        ensures
            d@ == secs * NANOS_PER_SEC,
    {
        assert(secs * NANOS_PER_SEC <= MAX_NANOS) by (nonlinear_arith)
            requires
                secs <= u64::MAX,
        ;
        Duration { nanos: (secs as u128) * NANOS_PER_SEC }
    }

    /// `millis` milliseconds.
    pub fn from_millis(millis: u64) -> (d: Duration)
        ensures
            d@ == millis * NANOS_PER_MILLI,
    {
        assert(millis * NANOS_PER_MILLI <= MAX_NANOS) by (nonlinear_arith)
            requires
                millis <= u64::MAX,
        ;
        Duration { nanos: (millis as u128) * NANOS_PER_MILLI }
    }

    /// A span given as whole seconds plus extra nanoseconds; the
    /// nanoseconds may exceed one second and carry into the seconds,
    /// saturating at the longest span.
    pub fn new(secs: u64, nanos: u32) -> (d: Duration)
        ensures
            d@ == if secs * NANOS_PER_SEC + nanos <= MAX_NANOS {
                secs * NANOS_PER_SEC + nanos
            } else {
                MAX_NANOS as int
            },
    {
        assert(secs * NANOS_PER_SEC <= MAX_NANOS) by (nonlinear_arith)
            requires
                secs <= u64::MAX,
        ;
        let total = (secs as u128) * NANOS_PER_SEC + (nanos as u128);
        if total <= MAX_NANOS {
            Duration { nanos: total }
        } else {
            Duration { nanos: MAX_NANOS }
        }
    }

    /// Total nanoseconds.
    pub fn as_nanos(&self) -> (n: u128)
        ensures
            n == self@,
    {
        self.nanos
    }

    /// Total milliseconds, rounded down.
    pub fn as_millis(&self) -> (n: u128)
        ensures
            n == self@ / NANOS_PER_MILLI as nat,
    {
        self.nanos / NANOS_PER_MILLI
    }

    /// Whole seconds.
    pub fn as_secs(&self) -> (n: u64)
        ensures
            n == self@ / NANOS_PER_SEC as nat,
    {
        proof {
            use_type_invariant(self);
        }
        assert(self.nanos / NANOS_PER_SEC <= u64::MAX) by (nonlinear_arith)
            requires
                self.nanos <= MAX_NANOS,
        ;
        (self.nanos / NANOS_PER_SEC) as u64
    }

    /// Nanoseconds past the whole seconds.
    pub fn subsec_nanos(&self) -> (n: u32)
        ensures
            n == self@ % NANOS_PER_SEC as nat,
    {
        (self.nanos % NANOS_PER_SEC) as u32
    }

    /// `self * rhs`, or the longest span when that is not representable
    /// (`Duration::saturating_mul`).
    pub fn saturating_mul(self, rhs: u32) -> (d: Duration)
        ensures
            d@ == if self@ * rhs <= MAX_NANOS {
                self@ * rhs
            } else {
                MAX_NANOS as int
            },
    {
        proof {
            use_type_invariant(&self);
        }
        assert(self.nanos * rhs <= MAX_NANOS * u32::MAX) by (nonlinear_arith)
            requires
                self.nanos <= MAX_NANOS,
                rhs <= u32::MAX,
        ;
        let product = self.nanos * (rhs as u128);
        if product <= MAX_NANOS {
            Duration { nanos: product }
        } else {
            Duration { nanos: MAX_NANOS }
        }
    }

    /// The shorter of two spans (`Ord::min`).
    pub fn min(self, other: Duration) -> (d: Duration)
        ensures
            d@ == if self@ <= other@ {
                self@ as int
            } else {
                other@ as int
            },
    {
        if self.nanos <= other.nanos {
            self
        } else {
            other
        }
    }
}

} // verus!
