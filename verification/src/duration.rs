//! A span of time with nanosecond resolution, bounded like
//! `core::time::Duration`: at most `u64::MAX` seconds plus 999,999,999
//! nanoseconds.
use vstd::prelude::*;

verus! {

/// Number of nanoseconds in one second.
pub const NANOS_PER_SEC: u64 = 1_000_000_000;

/// Number of nanoseconds in one millisecond.
pub const NANOS_PER_MILLI: u64 = 1_000_000;

/// The largest representable span, in nanoseconds: `u64::MAX` seconds
/// plus 999,999,999 nanoseconds.
pub const MAX_NANOS: u128 = 18_446_744_073_709_551_615_999_999_999;

/// Saturates a span, given in nanoseconds, at [`MAX_NANOS`].
pub open spec fn saturate(n: int) -> nat {
    if n <= MAX_NANOS {
        n as nat
    } else {
        MAX_NANOS as nat
    }
}

/// A span of time, counted in nanoseconds, never larger than
/// [`MAX_NANOS`]. Its view is that number of nanoseconds; durations are
/// ordered by it.
#[derive(Debug, Clone, Copy, PartialEq, Eq, Structural, PartialOrd, Ord, Hash)]
pub struct Duration {
    nanos: u128,
}

impl View for Duration {
    type V = nat;

    closed spec fn view(&self) -> nat {
        self.nanos as nat
    }
}

impl Duration {
    /// Every duration fits in the representable range.
    #[verifier::type_invariant]
    pub open spec fn bounded(self) -> bool {
        self@ <= MAX_NANOS
    }

    /// Two durations are equal exactly when they span the same number of
    /// nanoseconds.
    pub broadcast proof fn lemma_view_injective(a: Duration, b: Duration)
        ensures
            #![trigger a@, b@]
            (a@ == b@) == (a == b),
    {
    }

    /// The zero-length span.
    pub fn zero() -> (d: Duration)
        ensures
            d@ == 0,
    {
        Duration { nanos: 0 }
    }

    /// The largest representable span.
    pub fn max_value() -> (d: Duration)
        ensures
            d@ == MAX_NANOS,
    {
        Duration { nanos: MAX_NANOS }
    }

    /// A span of `secs` whole seconds plus `nanos` nanoseconds; `nanos` may
    /// exceed one second and carries into the seconds.
    pub fn new(secs: u64, nanos: u32) -> (d: Duration)
        requires
            secs * NANOS_PER_SEC + nanos <= MAX_NANOS,
        ensures
            d@ == secs * NANOS_PER_SEC + nanos,
    {
        assert(secs * NANOS_PER_SEC <= u64::MAX * NANOS_PER_SEC) by (nonlinear_arith)
            requires
                secs <= u64::MAX,
        ;
        let total: u128 = (secs as u128) * (NANOS_PER_SEC as u128) + (nanos as u128);
        Duration { nanos: total }
    }

    /// A span of `secs` whole seconds.
    pub fn from_secs(secs: u64) -> (d: Duration)
        ensures
            d@ == secs * NANOS_PER_SEC,
    {
        assert(secs * NANOS_PER_SEC <= u64::MAX * NANOS_PER_SEC) by (nonlinear_arith)
            requires
                secs <= u64::MAX,
        ;
        Duration { nanos: (secs as u128) * (NANOS_PER_SEC as u128) }
    }

    /// A span of `millis` milliseconds.
    pub fn from_millis(millis: u64) -> (d: Duration)
        ensures
            d@ == millis * NANOS_PER_MILLI,
    {
        assert(millis * NANOS_PER_MILLI <= u64::MAX * NANOS_PER_MILLI) by (nonlinear_arith)
            requires
                millis <= u64::MAX,
        ;
        Duration { nanos: (millis as u128) * (NANOS_PER_MILLI as u128) }
    }

    /// A span of `nanos` nanoseconds.
    pub fn from_nanos(nanos: u64) -> (d: Duration)
        ensures
            d@ == nanos,
    {
        Duration { nanos: nanos as u128 }
    }

    /// The whole span in nanoseconds.
    pub fn as_nanos(&self) -> (n: u128)
        ensures
            n == self@,
            n <= MAX_NANOS,
    {
        proof {
            use_type_invariant(self);
        }
        self.nanos
    }

    /// The whole span in milliseconds, rounded down.
    pub fn as_millis(&self) -> (n: u128)
        ensures
            n == self@ / (NANOS_PER_MILLI as nat),
    {
        self.nanos / (NANOS_PER_MILLI as u128)
    }

    /// The number of whole seconds in the span.
    pub fn as_secs(&self) -> (n: u64)
        ensures
            n == self@ / (NANOS_PER_SEC as nat),
    {
        proof {
            use_type_invariant(self);
        }
        let s: u128 = self.nanos / (NANOS_PER_SEC as u128);
        s as u64
    }

    /// The nanoseconds past the last whole second of the span.
    pub fn subsec_nanos(&self) -> (n: u32)
        ensures
            n == self@ % (NANOS_PER_SEC as nat),
            n < NANOS_PER_SEC,
    {
        let r: u128 = self.nanos % (NANOS_PER_SEC as u128);
        r as u32
    }

    /// `self + rhs`, or `None` where that exceeds [`MAX_NANOS`].
    pub fn checked_add(self, rhs: Duration) -> (r: Option<Duration>)
        ensures
            self@ + rhs@ <= MAX_NANOS ==> (r matches Some(s) && s@ == self@ + rhs@),
            self@ + rhs@ > MAX_NANOS ==> r is None,
    {
        proof {
            use_type_invariant(&self);
            use_type_invariant(&rhs);
        }
        let sum: u128 = self.nanos + rhs.nanos;
        if sum <= MAX_NANOS {
            Some(Duration { nanos: sum })
        } else {
            None
        }
    }

    /// `self * rhs`, or `None` where that exceeds [`MAX_NANOS`].
    pub fn checked_mul(self, rhs: u32) -> (r: Option<Duration>)
        ensures
            self@ * rhs <= MAX_NANOS ==> (r matches Some(s) && s@ == self@ * rhs),
            self@ * rhs > MAX_NANOS ==> r is None,
    {
        proof {
            use_type_invariant(&self);
        }
        let n = self.nanos;
        assert(n * rhs <= MAX_NANOS * u32::MAX) by (nonlinear_arith)
            requires
                n <= MAX_NANOS,
                rhs <= u32::MAX,
        ;
        let product: u128 = n * (rhs as u128);
        if product <= MAX_NANOS {
            Some(Duration { nanos: product })
        } else {
            None
        }
    }
}

} // verus!
