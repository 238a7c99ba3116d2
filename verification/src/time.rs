//! Instants and spans of time, held as whole seconds and nanoseconds as the chrono types hold
//! them (`DateTime<Utc>::timestamp` / `timestamp_subsec_nanos`, `TimeDelta`).

use vstd::prelude::*;

verus! {

/// One second in nanoseconds.
pub const NANOS_PER_SEC: u32 = 1_000_000_000;

/// An instant in UTC: `secs` since the Unix epoch (negative before it) and `nanos` within
/// that second.
#[derive(Debug, Clone, Copy, PartialEq, Eq, Hash, Structural)]
pub struct UtcTime {
    pub secs: i64,
    pub nanos: u32,
}

/// A signed span of time: `secs` whole seconds and `nanos` more (0..1e9), as `TimeDelta`.
#[derive(Debug, Clone, Copy, PartialEq, Eq, Hash, Structural)]
pub struct TimeSpan {
    pub secs: i64,
    pub nanos: u32,
}

impl UtcTime {
    /// Nanoseconds since the epoch.
    pub open spec fn total(self) -> int {
        self.secs * 1_000_000_000 + self.nanos
    }

    pub open spec fn wf(self) -> bool {
        self.nanos < NANOS_PER_SEC
    }

    /// Chronological order: `self` is at or after `other` (seconds first, then nanoseconds).
    pub open spec fn not_before(self, other: UtcTime) -> bool {
        self.secs > other.secs || (self.secs == other.secs && self.nanos >= other.nanos)
    }

    /// Whether `self` is at or after `other`.
    pub fn at_or_after(&self, other: &UtcTime) -> (b: bool)
        ensures
            b == self.not_before(*other),
            self.wf() && other.wf() ==> b == (self.total() >= other.total()),
    {
        proof {
            lemma_lexicographic(self.secs as int, self.nanos as int, other.secs as int, other.nanos as int);
        }
        self.secs > other.secs || (self.secs == other.secs && self.nanos >= other.nanos)
    }

    /// `self - earlier` in nanoseconds.
    pub fn nanos_since(&self, earlier: &UtcTime) -> (d: i128)
        ensures
            d == self.total() - earlier.total(),
    {
        let a = self.secs as i128 * 1_000_000_000i128 + self.nanos as i128;
        let b = earlier.secs as i128 * 1_000_000_000i128 + earlier.nanos as i128;
        a - b
    }
}

impl TimeSpan {
    /// Length in nanoseconds.
    pub open spec fn total(self) -> int {
        self.secs * 1_000_000_000 + self.nanos
    }

    pub open spec fn wf(self) -> bool {
        self.nanos < NANOS_PER_SEC
    }

    /// A span of whole seconds.
    pub fn seconds(secs: i64) -> (t: TimeSpan)
        ensures
            t.total() == secs * 1_000_000_000,
            t.wf(),
    {
        TimeSpan { secs, nanos: 0 }
    }

    /// Length in nanoseconds.
    pub fn as_nanos(&self) -> (n: i128)
        ensures
            n == self.total(),
    {
        self.secs as i128 * 1_000_000_000i128 + self.nanos as i128
    }
}

pub(crate) proof fn lemma_lexicographic(s1: int, n1: int, s2: int, n2: int)
    requires
        0 <= n1,
        0 <= n2,
    ensures
        n1 < 1_000_000_000 && n2 < 1_000_000_000 ==> ((s1 > s2 || (s1 == s2 && n1 >= n2)) == (
        s1 * 1_000_000_000 + n1 >= s2 * 1_000_000_000 + n2)),
{
    if n1 < 1_000_000_000 && n2 < 1_000_000_000 {
        if s1 > s2 {
            assert(s1 * 1_000_000_000 >= s2 * 1_000_000_000 + 1_000_000_000) by (nonlinear_arith)
                requires
                    s1 > s2,
            ;
        } else if s1 < s2 {
            assert(s2 * 1_000_000_000 >= s1 * 1_000_000_000 + 1_000_000_000) by (nonlinear_arith)
                requires
                    s1 < s2,
            ;
        }
    }
}

} // verus!
