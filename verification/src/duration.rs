//! A non-negative span of time, held as whole seconds and a sub-second
//! nanosecond remainder.

use vstd::prelude::*;

verus! {

/// Nanoseconds in one second.
pub const NANOS_PER_SEC: u32 = 1_000_000_000;

/// A non-negative duration: `secs` whole seconds plus `nanos` nanoseconds,
/// with `nanos` always below one second.
#[derive(Clone, Copy, Debug, PartialEq, Eq, Structural)]
pub struct Duration {
    pub secs: u64,
    pub nanos: u32,
}

impl Duration {
    /// The sub-second part stays below one second.
    pub open spec fn wf(self) -> bool {
        self.nanos < NANOS_PER_SEC
    }

    /// The duration as a whole number of nanoseconds.
    pub open spec fn as_nanos(self) -> int {
        self.secs * NANOS_PER_SEC + self.nanos
    }

    pub open spec fn spec_zero() -> Duration {
        Duration { secs: 0, nanos: 0 }
    }

    pub open spec fn spec_max() -> Duration {
        Duration { secs: u64::MAX, nanos: (NANOS_PER_SEC - 1) as u32 }
    }

    /// The zero-length duration.
    pub fn zero() -> (r: Duration)
        ensures
            r == Duration::spec_zero(),
            r.wf(),
            r.as_nanos() == 0,
    {
        Duration { secs: 0, nanos: 0 }
    }

    /// The longest representable duration.
    pub fn max_value() -> (r: Duration)
        ensures
            r == Duration::spec_max(),
            r.wf(),
    {
        Duration { secs: u64::MAX, nanos: NANOS_PER_SEC - 1 }
    }

    /// Whether `self` is at most `other`.
    pub fn le(&self, other: &Duration) -> (r: bool)
        requires
            self.wf(),
            other.wf(),
        ensures
            r == (self.as_nanos() <= other.as_nanos()),
    {
        if self.secs != other.secs {
            self.secs < other.secs
        } else {
            self.nanos <= other.nanos
        }
    }

    /// The smaller of the two durations, by length.
    pub fn min_of(self, other: Duration) -> (r: Duration)
        requires
            self.wf(),
            other.wf(),
        ensures
            r == self.spec_min(other),
            r.wf(),
            r.as_nanos() == vstd::math::min(self.as_nanos(), other.as_nanos()),
    {
        if self.le(&other) {
            self
        } else {
            other
        }
    }

    /// The larger of the two durations, by length.
    pub fn max_of(self, other: Duration) -> (r: Duration)
        requires
            self.wf(),
            other.wf(),
        ensures
            r == self.spec_max_of(other),
            r.wf(),
            r.as_nanos() == vstd::math::max(self.as_nanos(), other.as_nanos()),
    {
        if self.le(&other) {
            other
        } else {
            self
        }
    }

    pub open spec fn spec_min(self, other: Duration) -> Duration {
        if self.as_nanos() <= other.as_nanos() {
            self
        } else {
            other
        }
    }

    pub open spec fn spec_max_of(self, other: Duration) -> Duration {
        if self.as_nanos() <= other.as_nanos() {
            other
        } else {
            self
        }
    }

    /// The sum of two durations, clamped at the largest representable value.
    pub open spec fn spec_saturating_add(self, other: Duration) -> Duration {
        if self.as_nanos() + other.as_nanos() <= Duration::spec_max().as_nanos() {
            Duration {
                secs: ((self.as_nanos() + other.as_nanos()) / (NANOS_PER_SEC as int)) as u64,
                nanos: ((self.as_nanos() + other.as_nanos()) % (NANOS_PER_SEC as int)) as u32,
            }
        } else {
            Duration::spec_max()
        }
    }

    /// Adds two durations, clamping at the largest representable value.
    pub fn saturating_add(self, other: Duration) -> (r: Duration)
        requires
            self.wf(),
            other.wf(),
        ensures
            r == self.spec_saturating_add(other),
            r.wf(),
            r.as_nanos() == vstd::math::min(
                self.as_nanos() + other.as_nanos(),
                Duration::spec_max().as_nanos(),
            ),
    {
        let nano_sum: u64 = self.nanos as u64 + other.nanos as u64;
        let (carry, nanos): (u64, u32) = if nano_sum >= NANOS_PER_SEC as u64 {
            (1, (nano_sum - NANOS_PER_SEC as u64) as u32)
        } else {
            (0, nano_sum as u32)
        };
        match self.secs.checked_add(other.secs) {
            Some(s) => {
                match s.checked_add(carry) {
                    Some(secs) => {
                        let r = Duration { secs, nanos };
                        proof {
                            lemma_nanos_decompose(self, other, r);
                        }
                        r
                    },
                    None => Duration::max_value(),
                }
            },
            None => Duration::max_value(),
        }
    }
}

/// When the carried seconds fit, the (secs, nanos) decomposition of the sum
/// is exactly the sum of the nanosecond interpretations.
proof fn lemma_nanos_decompose(a: Duration, b: Duration, r: Duration)
    requires
        a.wf(),
        b.wf(),
        r.wf(),
        r.as_nanos() == a.as_nanos() + b.as_nanos(),
    ensures
        r == a.spec_saturating_add(b),
        r.as_nanos() <= Duration::spec_max().as_nanos(),
{
    let n = NANOS_PER_SEC as int;
    assert(r.as_nanos() <= Duration::spec_max().as_nanos()) by {
        vstd::arithmetic::mul::lemma_mul_inequality(r.secs as int, u64::MAX as int, n);
    }
    assert(r.as_nanos() / n == r.secs && r.as_nanos() % n == r.nanos) by {
        vstd::arithmetic::div_mod::lemma_fundamental_div_mod_converse(
            r.as_nanos(), n, r.secs as int, r.nanos as int);
    }
}

} // verus!
