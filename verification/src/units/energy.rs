//! Electrical units used by the hardware layer.

use vstd::prelude::*;

verus! {

/// A voltage, held in microvolts so that range checks are exact integer
/// comparisons.
#[derive(Debug, Clone, Copy, PartialEq, Eq, Structural)]
pub struct Volt {
    pub microvolts: i64,
}

impl Volt {
    /// The voltage of a whole number of microvolts.
    pub fn from_microvolts(microvolts: i64) -> (r: Self)
        ensures
            r.microvolts == microvolts,
    {
        Volt { microvolts }
    }

    /// This voltage in microvolts.
    pub fn value(&self) -> (r: i64)
        ensures
            r == self.microvolts,
    {
        self.microvolts
    }
}

} // verus!
