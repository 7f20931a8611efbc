//! Configuration of the runtime-wide ring and its driver.
use vstd::prelude::*;
use crate::clock::Duration;

verus! {

/// Configuration for the runtime-wide ring and its driver.
///
/// Validation and ring creation happen during runtime construction, before the
/// runtime is published.
#[derive(Clone, Copy, Debug, PartialEq, Eq, Structural)]
pub struct IoUringConfig {
    /// Number of entries in the kernel submission queue.
    ///
    /// The value must be non-zero and a power of two.
    pub entries: u32,
    /// Maximum number of CQEs processed in one driver pass.
    ///
    /// Reaching this limit makes the driver yield and schedule another pass
    /// instead of entering its timed wait.
    pub reap_size: usize,
    /// Maximum delay between CQ polls while requests remain in flight.
    ///
    /// Notifications from newly admitted work wake the driver early.
    pub poll_interval: Duration,
    /// Maximum number of undelivered CQEs retained for one submission.
    ///
    /// Original-operation and cancellation CQEs use separate queues with this
    /// limit. An original queue overflow closes normal delivery and requests
    /// cancellation; cancellation overflow does not stop terminal tracking.
    pub max_buffered_completions: usize,
}

/// Reason an [`IoUringConfig`] cannot be used to construct a ring.
#[derive(Clone, Copy, Debug, PartialEq, Eq, Structural)]
#[non_exhaustive]
pub enum InvalidIoUringConfig {
    /// [`IoUringConfig::entries`] is zero.
    ZeroEntries,
    /// [`IoUringConfig::entries`] is not a power of two.
    EntriesNotPowerOfTwo,
    /// [`IoUringConfig::reap_size`] is zero.
    ZeroReapSize,
    /// [`IoUringConfig::poll_interval`] is zero.
    ZeroPollInterval,
    /// [`IoUringConfig::max_buffered_completions`] is zero.
    ZeroCompletionBuffer,
}

/// Whether `n` is some power of two.
pub open spec fn is_power_of_two(n: int) -> bool {
    exists|k: nat| n == #[trigger] vstd::arithmetic::power2::pow2(k)
}

impl InvalidIoUringConfig {
    /// The text of [`InvalidIoUringConfig::description`].
    pub open spec fn text(self) -> Seq<char> {
        match self {
            InvalidIoUringConfig::ZeroEntries => "io_uring entries must be non-zero"@,
            InvalidIoUringConfig::EntriesNotPowerOfTwo =>
                "io_uring entries must be a power of two"@,
            InvalidIoUringConfig::ZeroReapSize => "io_uring reap size must be non-zero"@,
            InvalidIoUringConfig::ZeroPollInterval => "io_uring poll interval must be non-zero"@,
            InvalidIoUringConfig::ZeroCompletionBuffer =>
                "io_uring completion buffer limit must be non-zero"@,
        }
    }

    /// Describes the violated configuration requirement.
    pub fn description(&self) -> (text: &'static str)
        ensures
            text@ == self.text(),
    {
        match self {
            InvalidIoUringConfig::ZeroEntries => "io_uring entries must be non-zero",
            InvalidIoUringConfig::EntriesNotPowerOfTwo => "io_uring entries must be a power of two",
            InvalidIoUringConfig::ZeroReapSize => "io_uring reap size must be non-zero",
            InvalidIoUringConfig::ZeroPollInterval => "io_uring poll interval must be non-zero",
            InvalidIoUringConfig::ZeroCompletionBuffer =>
                "io_uring completion buffer limit must be non-zero",
        }
    }
}

impl Default for IoUringConfig {
    /// Returns the general-purpose ring and driver settings.
    ///
    /// The defaults use 256 SQ entries, reap at most 256 CQEs per pass, poll
    /// active work every 50 microseconds, and retain up to 65,536 undelivered
    /// CQEs in each queue belonging to a submission.
    fn default() -> (config: Self)
        ensures
            config == IoUringConfig::standard(),
            config.problem() is None,
    {
        let config = IoUringConfig {
            entries: 256,
            reap_size: 256,
            poll_interval: Duration::from_micros(50),
            max_buffered_completions: 65_536,
        };
        proof {
            vstd::arithmetic::power2::lemma2_to64();
            assert(256 == vstd::arithmetic::power2::pow2(8));
        }
        config
    }
}

impl IoUringConfig {
    /// The default configuration: 256 entries, 256 CQEs per pass, a polling
    /// target of 50 microseconds and 65,536 buffered completions.
    pub open spec fn standard() -> Self {
        IoUringConfig {
            entries: 256,
            reap_size: 256,
            poll_interval: Duration { secs: 0, subsec_nanos: 50_000 },
            max_buffered_completions: 65_536,
        }
    }

    /// The first requirement that this configuration violates.
    pub open spec fn problem(self) -> Option<InvalidIoUringConfig> {
        if self.entries == 0 {
            Some(InvalidIoUringConfig::ZeroEntries)
        } else if !is_power_of_two(self.entries as int) {
            Some(InvalidIoUringConfig::EntriesNotPowerOfTwo)
        } else if self.reap_size == 0 {
            Some(InvalidIoUringConfig::ZeroReapSize)
        } else if self.poll_interval.nanos() == 0 {
            Some(InvalidIoUringConfig::ZeroPollInterval)
        } else if self.max_buffered_completions == 0 {
            Some(InvalidIoUringConfig::ZeroCompletionBuffer)
        } else {
            None
        }
    }

    /// Validates fields required for bounded buffering and driver progress.
    ///
    /// Returns the original value on success and the first violated requirement
    /// otherwise.
    pub fn validate(self) -> (result: Result<Self, InvalidIoUringConfig>)
        ensures
            result == (match self.problem() {
                None => Ok::<Self, InvalidIoUringConfig>(self),
                Some(problem) => Err(problem),
            }),
    {
        if self.entries == 0 {
            return Err(InvalidIoUringConfig::ZeroEntries);
        }
        if !power_of_two(self.entries) {
            return Err(InvalidIoUringConfig::EntriesNotPowerOfTwo);
        }
        if self.reap_size == 0 {
            return Err(InvalidIoUringConfig::ZeroReapSize);
        }
        if self.poll_interval.is_zero() {
            return Err(InvalidIoUringConfig::ZeroPollInterval);
        }
        if self.max_buffered_completions == 0 {
            return Err(InvalidIoUringConfig::ZeroCompletionBuffer);
        }
        Ok(self)
    }
}

/// Reports whether `n` is a power of two.
fn power_of_two(n: u32) -> (result: bool)
    requires
        n > 0,
    ensures
        result == is_power_of_two(n as int),
    decreases n,
{
    proof {
        vstd::arithmetic::power2::lemma2_to64();
    }
    if n == 1 {
        assert(1 == vstd::arithmetic::power2::pow2(0));
        return true;
    }
    if n % 2 == 1 {
        proof {
            if is_power_of_two(n as int) {
                let k = choose|k: nat| n == #[trigger] vstd::arithmetic::power2::pow2(k);
                vstd::arithmetic::power2::lemma_pow2_unfold(k);
            }
        }
        return false;
    }
    let half = power_of_two(n / 2);
    proof {
        if half {
            let k = choose|k: nat| n / 2 == #[trigger] vstd::arithmetic::power2::pow2(k);
            vstd::arithmetic::power2::lemma_pow2_unfold(k + 1);
            assert(n == vstd::arithmetic::power2::pow2(k + 1));
        }
        if is_power_of_two(n as int) {
            let k = choose|k: nat| n == #[trigger] vstd::arithmetic::power2::pow2(k);
            vstd::arithmetic::power2::lemma_pow2_unfold(k);
            assert(n / 2 == vstd::arithmetic::power2::pow2((k - 1) as nat));
        }
    }
    half
}

} // verus!
