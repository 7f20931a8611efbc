//! Points and spans on the monotonic clock.
use vstd::prelude::*;

verus! {

/// Nanoseconds in one second.
pub const NANOS_PER_SEC: u32 = 1_000_000_000;

/// A span of time.
#[derive(Clone, Copy, Debug, PartialEq, Eq, Structural)]
pub struct Duration {
    /// Whole seconds.
    pub secs: u64,
    /// Nanoseconds beyond the whole seconds, fewer than one second.
    pub subsec_nanos: u32,
}

/// A point on the monotonic clock, relative to the clock's origin.
#[derive(Clone, Copy, Debug, PartialEq, Eq, Structural)]
pub struct Instant {
    /// Whole seconds since the origin.
    pub secs: i64,
    /// Nanoseconds beyond the whole seconds, fewer than one second.
    pub subsec_nanos: u32,
}

impl Duration {
    /// The nanosecond part stays below one second.
    pub open spec fn wf(self) -> bool {
        self.subsec_nanos < NANOS_PER_SEC
    }

    /// Length in nanoseconds.
    pub open spec fn nanos(self) -> int {
        self.secs * 1_000_000_000 + self.subsec_nanos
    }

    /// The empty span.
    pub fn zero() -> (duration: Self)
        ensures
            duration.wf(),
            duration.nanos() == 0,
    {
        Duration { secs: 0, subsec_nanos: 0 }
    }

    /// A span of whole seconds.
    pub fn from_secs(secs: u64) -> (duration: Self)
        ensures
            duration.wf(),
            duration.nanos() == secs * 1_000_000_000,
    {
        Duration { secs, subsec_nanos: 0 }
    }

    /// A span of milliseconds.
    pub fn from_millis(millis: u64) -> (duration: Self)
        ensures
            duration.wf(),
            duration.nanos() == millis * 1_000_000,
    {
        Duration { secs: millis / 1_000, subsec_nanos: ((millis % 1_000) as u32) * 1_000_000 }
    }

    /// A span of microseconds.
    pub fn from_micros(micros: u64) -> (duration: Self)
        ensures
            duration.wf(),
            duration.nanos() == micros * 1_000,
    {
        Duration { secs: micros / 1_000_000, subsec_nanos: ((micros % 1_000_000) as u32) * 1_000 }
    }

    /// A span of nanoseconds.
    pub fn from_nanos(nanos: u64) -> (duration: Self)
        ensures
            duration.wf(),
            duration.nanos() == nanos,
    {
        Duration { secs: nanos / 1_000_000_000, subsec_nanos: (nanos % 1_000_000_000) as u32 }
    }

    /// Reports whether this span is empty.
    pub fn is_zero(&self) -> (zero: bool)
        ensures
            zero == (self.nanos() == 0),
    {
        self.secs == 0 && self.subsec_nanos == 0
    }

    /// Returns the length in nanoseconds, limited to what the native wait takes.
    pub fn as_wait_nanos(&self) -> (nanos: u64)
        ensures
            nanos == vstd::math::min(self.nanos(), u64::MAX as int),
    {
        let total: u128 = (self.secs as u128) * 1_000_000_000 + (self.subsec_nanos as u128);
        if total < (u64::MAX as u128) {
            total as u64
        } else {
            u64::MAX
        }
    }
}

impl Instant {
    /// The nanosecond part stays below one second.
    pub open spec fn wf(self) -> bool {
        self.subsec_nanos < NANOS_PER_SEC
    }

    /// Distance from the origin in nanoseconds.
    pub open spec fn nanos(self) -> int {
        self.secs * 1_000_000_000 + self.subsec_nanos
    }

    /// One past the last representable instant, in nanoseconds.
    pub open spec fn limit() -> int {
        (i64::MAX + 1) * 1_000_000_000
    }

    /// Two points on the clock are the same exactly when their distances are.
    pub proof fn lemma_nanos_injective(self, other: Self)
        requires
            self.wf(),
            other.wf(),
        ensures
            self.nanos() == other.nanos() <==> self == other,
    {
    }

    /// Reports whether this point lies strictly before `other`.
    pub fn is_before(&self, other: &Instant) -> (before: bool)
        requires
            self.wf(),
            other.wf(),
        ensures
            before == (self.nanos() < other.nanos()),
    {
        self.secs < other.secs || (self.secs == other.secs && self.subsec_nanos
            < other.subsec_nanos)
    }

    /// Moves this point forward, if the result can be represented.
    pub fn checked_add(&self, duration: Duration) -> (sum: Option<Instant>)
        requires
            self.wf(),
            duration.wf(),
        ensures
            sum is Some <==> self.nanos() + duration.nanos() < Instant::limit(),
            sum matches Some(sum) ==> sum.wf() && sum.nanos() == self.nanos() + duration.nanos(),
    {
        let mut secs: i128 = (self.secs as i128) + (duration.secs as i128);
        let mut nanos: u32 = self.subsec_nanos + duration.subsec_nanos;
        if nanos >= NANOS_PER_SEC {
            nanos = nanos - NANOS_PER_SEC;
            secs = secs + 1;
        }
        if secs > (i64::MAX as i128) {
            return None;
        }
        Some(Instant { secs: secs as i64, subsec_nanos: nanos })
    }

    /// Returns the time since `earlier`, or zero if that lies in the future.
    pub fn saturating_duration_since(&self, earlier: Instant) -> (duration: Duration)
        requires
            self.wf(),
            earlier.wf(),
        ensures
            duration.wf(),
            duration.nanos() == vstd::math::max(self.nanos() - earlier.nanos(), 0),
    {
        if !earlier.is_before(self) {
            return Duration::zero();
        }
        let secs: i128 = (self.secs as i128) - (earlier.secs as i128);
        if self.subsec_nanos >= earlier.subsec_nanos {
            Duration { secs: secs as u64, subsec_nanos: self.subsec_nanos - earlier.subsec_nanos }
        } else {
            Duration {
                secs: (secs - 1) as u64,
                subsec_nanos: self.subsec_nanos + NANOS_PER_SEC - earlier.subsec_nanos,
            }
        }
    }
}

} // verus!
