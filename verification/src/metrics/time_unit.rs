//! Units in which a duration can be reported.

use vstd::prelude::*;

verus! {

/// A unit of time, from nanoseconds up to days.
#[derive(Clone, Copy, Debug, PartialEq, Eq, Structural)]
pub enum TimeUnit {
    Nanosecond,
    Microsecond,
    Millisecond,
    Second,
    Minute,
    Hour,
    Day,
}

impl TimeUnit {
    /// How many nanoseconds make up one of this unit.
    pub open spec fn spec_nanos_per_unit(self) -> u64 {
        match self {
            TimeUnit::Nanosecond => 1,
            TimeUnit::Microsecond => 1_000,
            TimeUnit::Millisecond => 1_000_000,
            TimeUnit::Second => 1_000_000_000,
            TimeUnit::Minute => 60_000_000_000,
            TimeUnit::Hour => 3_600_000_000_000,
            TimeUnit::Day => 86_400_000_000_000,
        }
    }

    /// The whole number of this unit that fits into `nanos` nanoseconds.
    pub open spec fn spec_duration_convert(self, nanos: u64) -> u64 {
        nanos / self.spec_nanos_per_unit()
    }

    /// How many nanoseconds make up one of this unit.
    #[verifier::when_used_as_spec(spec_nanos_per_unit)]
    pub fn nanos_per_unit(self) -> (factor: u64)
        ensures
            factor == self.spec_nanos_per_unit(),
            factor > 0,
    {
        match self {
            TimeUnit::Nanosecond => 1,
            TimeUnit::Microsecond => 1_000,
            TimeUnit::Millisecond => 1_000_000,
            TimeUnit::Second => 1_000_000_000,
            TimeUnit::Minute => 60_000_000_000,
            TimeUnit::Hour => 3_600_000_000_000,
            TimeUnit::Day => 86_400_000_000_000,
        }
    }

    /// Converts a duration given in nanoseconds into this unit, dropping the
    /// remainder.
    #[verifier::when_used_as_spec(spec_duration_convert)]
    pub fn duration_convert(self, nanos: u64) -> (converted: u64)
        ensures
            converted == self.spec_duration_convert(nanos),
            converted <= nanos,
    {
        nanos / self.nanos_per_unit()
    }
}

/// The nanosecond count `nanos` as the library holds durations: itself where
/// it fits into 64 bits, and the largest 64-bit value where it does not.
pub open spec fn spec_saturating_nanos(nanos: u128) -> u64 {
    if nanos > u64::MAX {
        u64::MAX
    } else {
        nanos as u64
    }
}

/// Narrows a nanosecond count to the 64 bits in which the library holds
/// durations; a count beyond that range becomes the largest one in it.
#[verifier::when_used_as_spec(spec_saturating_nanos)]
pub fn saturating_nanos(nanos: u128) -> (narrowed: u64)
    ensures
        narrowed == spec_saturating_nanos(nanos),
{
    if nanos > u64::MAX as u128 {
        u64::MAX
    } else {
        nanos as u64
    }
}

} // verus!
