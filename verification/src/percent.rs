//! Percentages without floating point.

use vstd::prelude::*;

verus! {

/// A percentage, counted in thousandths of a percent. A figure with more
/// digits than that is rounded towards negative infinity.
#[derive(Debug, Clone, Copy, PartialEq, Eq)]
pub struct Percent {
    pub thousandths: i64,
}

impl Percent {
    /// Whether this percentage is the larger one.
    pub fn exceeds(self, other: Percent) -> (r: bool)
        ensures
            r == (self.thousandths > other.thousandths),
    {
        self.thousandths > other.thousandths
    }
}

} // verus!
