//! The monotonic clock driver trait.  Not for direct use: the time
//! module wraps it with the pause bookkeeping.

use crate::time::set_time_implementation;
use crate::time::TimeImplementation;
use crate::units::time::Microsecond;
use vstd::prelude::*;

verus! {

/// A platform's monotonic clock.
pub trait ClockDriver: Sized {
    /// When true, the time module keeps its default source even when this
    /// driver is installed; useful on platforms that just use system
    /// time.
    fn use_default_driver() -> bool;

    /// Whether this driver implements a non-aborting pause.
    fn can_pause() -> bool {
        false
    }

    /// The program uptime in microseconds.
    fn uptime() -> Microsecond;

    /// Pauses or resumes the uptime clock; called only through the time
    /// module, which alternates pauses and resumes.
    fn pause(should_pause: bool) {
        let _ = should_pause;
    }

    /// Whether system time is currently a valid source of real-world
    /// time.
    fn system_time_valid() -> bool;
}

/// Installs a driver's clock as the time source, unless the driver asks
/// to keep the default.  The source must not be frozen yet.
pub fn initialize_time_callbacks<T: ClockDriver>(time: &mut TimeImplementation, name: String)
    requires
        !old(time).spec_frozen(),
    ensures
        *final(time) == *old(time) || (final(time).spec_frozen() && final(time).spec_name()
            == name@ && final(time).spec_paused() == old(time).spec_paused()),
{
    if T::use_default_driver() {
        return;
    }
    set_time_implementation(time, name, T::can_pause());
}

} // verus!
