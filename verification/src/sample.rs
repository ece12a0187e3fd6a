//! A price as the ledger stores it: an integer part and a fraction counted
//! in millionths.

use vstd::prelude::*;

verus! {

/// The number of parts that make one whole.
pub const PARTS_PER_MILLION: u32 = 1_000_000;

/// A price in fixed point: `value + fraction / 1_000_000`.
///
/// The fraction of every sample is below one million.
#[derive(Clone, Copy, Debug, PartialEq, Eq, Structural)]
pub struct Sample {
    value: u64,
    fraction: u32,
}

impl View for Sample {
    type V = (u64, u32);

    closed spec fn view(&self) -> (u64, u32) {
        (self.value, self.fraction)
    }
}

impl Sample {
    /// What holds of every sample: its fraction is below one whole.
    #[verifier::type_invariant]
    pub open spec fn in_range(self) -> bool {
        self@.1 < PARTS_PER_MILLION
    }

    /// The sample of the given parts, where the fraction is below one million.
    pub fn new(value: u64, fraction: u32) -> (r: Option<Sample>)
        ensures
            fraction < PARTS_PER_MILLION ==> r is Some && r->0@ == (value, fraction),
            fraction >= PARTS_PER_MILLION ==> r is None,
    {
        if fraction < PARTS_PER_MILLION {
            Some(Sample { value, fraction })
        } else {
            None
        }
    }

    /// The integer part.
    pub fn value(&self) -> (v: u64)
        ensures
            v == self@.0,
    {
        self.value
    }

    /// The fraction, in millionths.
    pub fn fraction(&self) -> (f: u32)
        ensures
            f == self@.1,
            f < PARTS_PER_MILLION,
    {
        proof {
            use_type_invariant(self);
        }
        self.fraction
    }
}

} // verus!
