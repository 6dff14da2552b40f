//! Readings of a monotonic clock, and the time between two of them in whole
//! milliseconds. The caller reads the clock; this module only subtracts.

use vstd::prelude::*;

verus! {

pub const NANOS_PER_MILLI: u128 = 1_000_000;

/// A reading of a monotonic clock, in nanoseconds since some fixed start.
#[derive(Clone, Copy, Debug, PartialEq, Eq, Structural)]
pub struct Timestamp {
    pub nanos: u128,
}

/// A span of time in whole milliseconds.
#[derive(Clone, Copy, Debug, PartialEq, Eq, Structural)]
pub struct Elapsed {
    pub millis: u128,
}

impl Elapsed {
    /// No time at all.
    pub open spec fn spec_zero() -> Elapsed {
        Elapsed { millis: 0 }
    }

    #[verifier::when_used_as_spec(spec_zero)]
    pub fn zero() -> (e: Elapsed)
        ensures
            e == Elapsed::spec_zero(),
    {
        Elapsed { millis: 0 }
    }
}

impl Timestamp {
    /// The time from `earlier` to `self`, cut to whole milliseconds; no time
    /// at all where `earlier` is the later of the two.
    pub open spec fn spec_since(self, earlier: Timestamp) -> Elapsed {
        if self.nanos >= earlier.nanos {
            Elapsed { millis: ((self.nanos - earlier.nanos) / (NANOS_PER_MILLI as int)) as u128 }
        } else {
            Elapsed::spec_zero()
        }
    }

    #[verifier::when_used_as_spec(spec_since)]
    pub fn since(self, earlier: Timestamp) -> (e: Elapsed)
        ensures
            e == self.spec_since(earlier),
    {
        if self.nanos >= earlier.nanos {
            Elapsed { millis: (self.nanos - earlier.nanos) / NANOS_PER_MILLI }
        } else {
            Elapsed { millis: 0 }
        }
    }
}

} // verus!
