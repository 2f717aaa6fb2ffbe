//! A measurement of the program's monotonic uptime clock.

use super::uptime;
use super::TimeImplementation;
use crate::hal::rt::time::ClockDriver;
use crate::units::time::Microsecond;
use vstd::prelude::*;

verus! {

/// An instant of program uptime, in microseconds since start.  Spans
/// between instants are plain microsecond counts.
#[derive(Debug, Clone, Copy, PartialEq, Eq, PartialOrd, Ord, Hash, Structural)]
pub struct Instant(pub u64);

impl Instant {
    /// The instant the driver's clock reads now; reading freezes the time
    /// source against replacement.
    pub fn now<D: ClockDriver>(time: &mut TimeImplementation) -> (r: Self)
        ensures
            final(time).spec_frozen(),
            final(time).spec_name() == old(time).spec_name(),
            final(time).spec_pause_implemented() == old(time).spec_pause_implemented(),
            final(time).spec_paused() == old(time).spec_paused(),
    {
        let m = uptime::<D>(time);
        Instant(m.value())
    }

    /// The microseconds from `earlier` to this instant, zero when
    /// `earlier` is later.
    pub fn duration_since(&self, earlier: Self) -> (r: u64)
        ensures
            r == if earlier.0 > self.0 {
                0u64
            } else {
                (self.0 - earlier.0) as u64
            },
    {
        if earlier.0 > self.0 {
            0
        } else {
            self.0 - earlier.0
        }
    }

    /// The microseconds from this instant to the clock's reading now.
    pub fn elapsed<D: ClockDriver>(&self, time: &mut TimeImplementation) -> (r: u64)
        ensures
            final(time).spec_frozen(),
            final(time).spec_name() == old(time).spec_name(),
            final(time).spec_pause_implemented() == old(time).spec_pause_implemented(),
            final(time).spec_paused() == old(time).spec_paused(),
    {
        let now = Self::now::<D>(time);
        now.duration_since(*self)
    }

    /// The instant `duration` microseconds after this one, when it is
    /// representable.
    pub fn checked_add(&self, duration: u64) -> (r: Option<Self>)
        ensures
            self.0 + duration <= u64::MAX ==> r == Some(Instant((self.0 + duration) as u64)),
            self.0 + duration > u64::MAX ==> r is None,
    {
        match self.0.checked_add(duration) {
            Some(v) => Some(Instant(v)),
            None => None,
        }
    }

    /// The instant `duration` microseconds before this one, when it is
    /// representable.
    pub fn checked_sub(&self, duration: u64) -> (r: Option<Self>)
        ensures
            duration <= self.0 ==> r == Some(Instant((self.0 - duration) as u64)),
            duration > self.0 ==> r is None,
    {
        match self.0.checked_sub(duration) {
            Some(v) => Some(Instant(v)),
            None => None,
        }
    }

    /// The microseconds from `earlier` to this instant, `None` when
    /// `earlier` is later.
    pub fn checked_duration_since(&self, earlier: Self) -> (r: Option<u64>)
        ensures
            earlier.0 > self.0 ==> r is None,
            earlier.0 <= self.0 ==> r == Some((self.0 - earlier.0) as u64),
    {
        if earlier.0 > self.0 {
            None
        } else {
            Some(self.0 - earlier.0)
        }
    }

    /// The microseconds from `earlier` to this instant, zero when
    /// `earlier` is later.
    pub fn saturating_duration_since(&self, earlier: Self) -> (r: u64)
        ensures
            r == if earlier.0 > self.0 {
                0u64
            } else {
                (self.0 - earlier.0) as u64
            },
    {
        match self.checked_duration_since(earlier) {
            Some(d) => d,
            None => 0,
        }
    }
}

} // verus!
