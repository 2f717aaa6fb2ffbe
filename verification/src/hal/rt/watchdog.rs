//! The watchdog driver trait and its dispatch table.

use super::super::NotSimError;
use crate::units::energy::Volt;
use core::marker::PhantomData;
use vstd::prelude::*;

verus! {

/// A platform's watchdog driver.
pub trait WatchdogDriver: Sized {
    /// Whether the watchdog is enabled.
    fn enabled() -> bool;

    /// The system's voltage.
    fn system_power() -> Volt;
}

/// A watchdog driver whose state simulation can set.
pub trait SimWatchdogDriver: WatchdogDriver {
    /// Sets whether the watchdog is enabled.
    fn set_enabled(enabled: bool);

    /// Sets the system's voltage.
    fn set_system_power(voltage: Volt);
}

/// The watchdog dispatch table of one driver.  The setters answer
/// `NotSimError` exactly when the table was built without simulation
/// support.
pub struct WatchdogVTable<D: WatchdogDriver> {
    sim: bool,
    marker: PhantomData<D>,
}

impl<D: WatchdogDriver> Clone for WatchdogVTable<D> {
    fn clone(&self) -> (r: Self)
        ensures
            r.spec_sim() == self.spec_sim(),
    {
        WatchdogVTable { sim: self.sim, marker: PhantomData }
    }
}

impl<D: WatchdogDriver> Copy for WatchdogVTable<D> {

}

impl<D: WatchdogDriver> WatchdogVTable<D> {
    /// Whether this table was built with simulation support.
    pub closed spec fn spec_sim(&self) -> bool {
        self.sim
    }

    /// The table of a driver without simulation support.
    pub fn from_driver() -> (r: Self)
        ensures
            !r.spec_sim(),
    {
        WatchdogVTable { sim: false, marker: PhantomData }
    }

    /// The table of a driver with simulation support.
    pub fn from_sim_driver() -> (r: Self) where D: SimWatchdogDriver
        ensures
            r.spec_sim(),
    {
        WatchdogVTable { sim: true, marker: PhantomData }
    }

    /// Whether the watchdog is enabled.
    pub fn enabled(&self) -> bool {
        D::enabled()
    }

    /// The system's voltage.
    pub fn system_power(&self) -> Volt {
        D::system_power()
    }

    /// Sets whether the watchdog is enabled; answered only with
    /// simulation support.
    pub fn set_enabled(&self, enabled: bool) -> (r: Result<(), NotSimError>) where
        D: SimWatchdogDriver

        ensures
            r is Ok <==> self.spec_sim(),
    {
        if self.sim {
            D::set_enabled(enabled);
            Ok(())
        } else {
            Err(NotSimError)
        }
    }

    /// Sets the system's voltage; answered only with simulation support.
    pub fn set_system_power(&self, voltage: Volt) -> (r: Result<(), NotSimError>) where
        D: SimWatchdogDriver

        ensures
            r is Ok <==> self.spec_sim(),
    {
        if self.sim {
            D::set_system_power(voltage);
            Ok(())
        } else {
            Err(NotSimError)
        }
    }
}

} // verus!
