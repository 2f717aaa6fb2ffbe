//! Time units used by the hardware layer and the time source.

use vstd::prelude::*;

verus! {

/// A time span or timestamp in whole microseconds.
#[derive(Debug, Clone, Copy, PartialEq, Eq, PartialOrd, Ord, Hash, Structural)]
pub struct Microsecond(pub u64);

impl Microsecond {
    /// The span of a whole number of microseconds.
    pub fn new(value: u64) -> (r: Self)
        ensures
            r.0 == value,
    {
        Microsecond(value)
    }

    /// This span in microseconds.
    pub fn value(&self) -> (r: u64)
        ensures
            r == self.0,
    {
        self.0
    }
}

} // verus!
