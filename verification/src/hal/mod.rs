//! The hardware abstraction layer: driver traits a platform implements,
//! and the dispatch tables built from one driver.
//!
//! A platform supplies one driver type implementing the GPIO, clock,
//! notifier and watchdog driver traits; the `HAL` value built from it
//! hands out per-subsystem dispatch tables.  Simulation-only operations
//! answer with [`NotSimError`] on a table built without simulation
//! support.

pub mod gpio;
pub mod rt;

use self::gpio::GPIODriver;
use self::gpio::GPIOVTable;
use self::gpio::SimGPIODriver;
use self::rt::notifier::NotifierDriver;
use self::rt::notifier::NotifierVTable;
use self::rt::time::ClockDriver;
use self::rt::watchdog::SimWatchdogDriver;
use self::rt::watchdog::WatchdogDriver;
use self::rt::watchdog::WatchdogVTable;
use vstd::prelude::*;

verus! {

/// The error answered when a simulation-only operation is called on a
/// table built without simulation support.
#[derive(Debug, Clone, Copy, PartialEq, Eq, Structural)]
pub struct NotSimError;

/// The error answered when the hardware layer is used before a driver
/// was installed.
#[derive(Debug, Clone, Copy, PartialEq, Eq, Structural)]
pub struct HALNotInitializedError;

/// A platform's driver: one zero-state type implementing every subsystem
/// driver trait.
pub trait HALDriver: GPIODriver + ClockDriver + NotifierDriver + WatchdogDriver {
    /// The driver's name, for logging and debugging.
    fn name() -> String;

    /// Called once, before any other use of the driver.
    fn init();

    /// Called at most once, after `init`, to release driver state.
    fn cleanup();
}

/// A platform driver with simulation support: the simulated ends of the
/// GPIO ports and a settable watchdog.
pub trait SimHALDriver: HALDriver + SimGPIODriver + SimWatchdogDriver {

}

/// The hardware layer built from one driver: a name and the dispatch
/// tables of each subsystem.
pub struct HAL<D: HALDriver> {
    driver_name: String,
    gpio: GPIOVTable<D>,
    notifier: NotifierVTable<D>,
    watchdog: WatchdogVTable<D>,
}

impl<D: HALDriver> HAL<D> {
    /// Whether the GPIO table was built with simulation support.
    pub closed spec fn spec_gpio_sim(&self) -> bool {
        self.gpio.spec_sim()
    }

    /// Whether the watchdog table was built with simulation support.
    pub closed spec fn spec_watchdog_sim(&self) -> bool {
        self.watchdog.spec_sim()
    }

    /// The driver's reported name.
    pub closed spec fn spec_driver_name(&self) -> Seq<char> {
        self.driver_name@
    }

    /// Initializes the driver and builds the hardware layer without
    /// simulation support.
    pub fn init() -> (r: Self)
        ensures
            !r.spec_gpio_sim(),
            !r.spec_watchdog_sim(),
    {
        D::init();
        HAL {
            driver_name: D::name(),
            gpio: GPIOVTable::<D>::from_driver(),
            notifier: NotifierVTable::<D>::from_driver(),
            watchdog: WatchdogVTable::<D>::from_driver(),
        }
    }

    /// Initializes the driver and builds the hardware layer with
    /// simulation support.
    pub fn init_sim() -> (r: Self) where D: SimHALDriver
        ensures
            r.spec_gpio_sim(),
            r.spec_watchdog_sim(),
    {
        D::init();
        HAL {
            driver_name: D::name(),
            gpio: GPIOVTable::<D>::from_sim_driver(),
            notifier: NotifierVTable::<D>::from_driver(),
            watchdog: WatchdogVTable::<D>::from_sim_driver(),
        }
    }

    /// Releases the driver's state.
    pub fn cleanup(&self) {
        D::cleanup();
    }

    /// The driver's reported name.
    pub fn driver_name(&self) -> (r: &str)
        ensures
            r@ == self.spec_driver_name(),
    {
        self.driver_name.as_str()
    }

    /// The notifier dispatch table.
    pub fn notifier_api(&self) -> (r: NotifierVTable<D>) {
        self.notifier
    }

    /// The watchdog dispatch table.
    pub fn watchdog_api(&self) -> (r: WatchdogVTable<D>)
        ensures
            r.spec_sim() == self.spec_watchdog_sim(),
    {
        self.watchdog
    }

    /// The GPIO dispatch table.
    pub fn gpio_api(&self) -> (r: GPIOVTable<D>)
        ensures
            r.spec_sim() == self.spec_gpio_sim(),
    {
        self.gpio
    }
}

} // verus!
