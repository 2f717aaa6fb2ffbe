//! General-purpose I/O: port types, errors, channel traits, the platform
//! driver trait and the dispatch table built from one driver.

pub mod analog;
pub mod digital;

use self::analog::AnalogInputChannel;
use self::analog::AnalogOutputChannel;
use self::digital::DigitalInputChannel;
use self::digital::DigitalOutputChannel;
use super::NotSimError;
use crate::units::energy::Volt;
use core::marker::PhantomData;
use vstd::prelude::*;

verus! {

/// The three kinds of GPIO port.
#[derive(Debug, Clone, Copy, PartialEq, Eq, Structural)]
pub enum GPIOPortType {
    Analog,
    Digital,
    PWM,
}

/// What can go wrong when opening or driving a GPIO port.
#[non_exhaustive]
#[derive(Debug, Clone, Copy, PartialEq, Eq, Structural)]
pub enum GPIOError {
    PortNotAvailable(u8),
    ValueOutOfRange(Volt, GPIOPortType, u8),
    WrongMode(GPIOPortType, u8, bool),
    PortInUse(u8),
}

impl GPIOPortType {
    /// The port kind's display text.
    pub fn text(&self) -> (r: String)
        ensures
            r@ == match self {
                GPIOPortType::Analog => "Analog Port"@,
                GPIOPortType::Digital => "Digital Port"@,
                GPIOPortType::PWM => "PWM Port"@,
            },
    {
        match self {
            GPIOPortType::Analog => "Analog Port".to_owned(),
            GPIOPortType::Digital => "Digital Port".to_owned(),
            GPIOPortType::PWM => "PWM Port".to_owned(),
        }
    }
}

/// Anything that sits on one identified port.
pub trait Channel {
    /// The port this channel occupies.
    fn channel_id(&self) -> u8;
}

/// Checks that a voltage sits in the analog range of zero to five volts.
pub fn inside_analog_range(port: u8, volts: Volt) -> (r: Result<(), GPIOError>)
    ensures
        r == if 0 <= volts.microvolts <= 5_000_000i64 {
            Ok::<(), GPIOError>(())
        } else {
            Err::<(), GPIOError>(GPIOError::ValueOutOfRange(volts, GPIOPortType::Analog, port))
        },
{
    if 0 <= volts.microvolts && volts.microvolts <= 5_000_000 {
        Ok(())
    } else {
        Err(GPIOError::ValueOutOfRange(volts, GPIOPortType::Analog, port))
    }
}

/// Whether a port number appears in a port list.
pub fn port_listed(ports: &Vec<u8>, port: u8) -> (r: bool)
    ensures
        r == ports@.contains(port),
{
    let mut i: usize = 0;
    let n = ports.len();
    while i < n
        invariant
            n == ports@.len(),
            0 <= i <= n,
            forall|k: int| 0 <= k < i ==> ports@[k] != port,
        decreases n - i,
    {
        if ports[i] == port {
            assert(ports@[i as int] == port);
            return true;
        }
        i += 1;
    }
    proof {
        assert(!ports@.contains(port));
    }
    false
}

/// A platform's GPIO driver.  Ports are identified by a `u8`; one number
/// may name different physical pins for different port kinds.
pub trait GPIODriver: Sized {
    /// The channel type an analog input port opens to.
    type AnalogIn: AnalogInputChannel;

    /// The channel type an analog output port opens to.
    type AnalogOut: AnalogOutputChannel;

    /// The channel type a digital input port opens to.
    type DigitalIn: DigitalInputChannel;

    /// The channel type a digital output port opens to.
    type DigitalOut: DigitalOutputChannel;

    /// The ports available for analog use.
    fn analog_ports() -> Vec<u8>;

    /// The ports available for digital use.
    fn digital_ports() -> Vec<u8>;

    /// The ports available for PWM use.
    fn pwm_ports() -> Vec<u8>;

    /// The ports available for relay use.
    fn relay_ports() -> Vec<u8>;

    /// Opens an analog input on the port.
    fn new_analog_input(port: u8) -> Result<Self::AnalogIn, GPIOError>;

    /// Opens an analog output on the port.
    fn new_analog_output(port: u8) -> Result<Self::AnalogOut, GPIOError>;

    /// Opens a digital input on the port.
    fn new_digital_input(port: u8) -> Result<Self::DigitalIn, GPIOError>;

    /// Opens a digital output on the port.
    fn new_digital_output(port: u8) -> Result<Self::DigitalOut, GPIOError>;

    /// Checks that the port is available for analog use.
    fn analog_available(port: u8) -> Result<(), GPIOError> {
        let ports = Self::analog_ports();
        if port_listed(&ports, port) {
            Ok(())
        } else {
            Err(GPIOError::PortNotAvailable(port))
        }
    }

    /// Checks that the port is available for digital use.
    fn digital_available(port: u8) -> Result<(), GPIOError> {
        let ports = Self::digital_ports();
        if port_listed(&ports, port) {
            Ok(())
        } else {
            Err(GPIOError::PortNotAvailable(port))
        }
    }

    /// Checks that the port is available for PWM use.
    fn pwm_available(port: u8) -> Result<(), GPIOError> {
        let ports = Self::pwm_ports();
        if port_listed(&ports, port) {
            Ok(())
        } else {
            Err(GPIOError::PortNotAvailable(port))
        }
    }
}

/// A GPIO driver that can also open the simulated far end of each port.
pub trait SimGPIODriver: GPIODriver {
    /// The far end of an analog input port.
    fn sim_analog_input(port: u8) -> Self::AnalogOut;

    /// The far end of an analog output port.
    fn sim_analog_output(port: u8) -> Self::AnalogIn;

    /// The far end of a digital input port.
    fn sim_digital_input(port: u8) -> Self::DigitalOut;

    /// The far end of a digital output port.
    fn sim_digital_output(port: u8) -> Self::DigitalIn;
}

/// The GPIO dispatch table of one driver.  Simulation-only operations
/// answer `NotSimError` exactly when the table was built without
/// simulation support.
pub struct GPIOVTable<D: GPIODriver> {
    sim: bool,
    marker: PhantomData<D>,
}

impl<D: GPIODriver> Clone for GPIOVTable<D> {
    fn clone(&self) -> (r: Self)
        ensures
            r.spec_sim() == self.spec_sim(),
    {
        GPIOVTable { sim: self.sim, marker: PhantomData }
    }
}

impl<D: GPIODriver> Copy for GPIOVTable<D> {

}

impl<D: GPIODriver> GPIOVTable<D> {
    /// Whether this table was built with simulation support.
    pub closed spec fn spec_sim(&self) -> bool {
        self.sim
    }

    /// The table of a driver without simulation support.
    pub fn from_driver() -> (r: Self)
        ensures
            !r.spec_sim(),
    {
        GPIOVTable { sim: false, marker: PhantomData }
    }

    /// The table of a driver with simulation support.
    pub fn from_sim_driver() -> (r: Self) where D: SimGPIODriver
        ensures
            r.spec_sim(),
    {
        GPIOVTable { sim: true, marker: PhantomData }
    }

    /// Opens an analog input on the port.
    pub fn new_analog_input(&self, port: u8) -> Result<D::AnalogIn, GPIOError> {
        D::new_analog_input(port)
    }

    /// Opens an analog output on the port.
    pub fn new_analog_output(&self, port: u8) -> Result<D::AnalogOut, GPIOError> {
        D::new_analog_output(port)
    }

    /// Opens a digital input on the port.
    pub fn new_digital_input(&self, port: u8) -> Result<D::DigitalIn, GPIOError> {
        D::new_digital_input(port)
    }

    /// Opens a digital output on the port.
    pub fn new_digital_output(&self, port: u8) -> Result<D::DigitalOut, GPIOError> {
        D::new_digital_output(port)
    }

    /// The far end of an analog input port; answered only with
    /// simulation support.
    pub fn sim_analog_input(&self, port: u8) -> (r: Result<D::AnalogOut, NotSimError>) where
        D: SimGPIODriver

        ensures
            r is Ok <==> self.spec_sim(),
    {
        if self.sim {
            Ok(D::sim_analog_input(port))
        } else {
            Err(NotSimError)
        }
    }

    /// The far end of an analog output port; answered only with
    /// simulation support.
    pub fn sim_analog_output(&self, port: u8) -> (r: Result<D::AnalogIn, NotSimError>) where
        D: SimGPIODriver

        ensures
            r is Ok <==> self.spec_sim(),
    {
        if self.sim {
            Ok(D::sim_analog_output(port))
        } else {
            Err(NotSimError)
        }
    }

    /// The far end of a digital input port; answered only with
    /// simulation support.
    pub fn sim_digital_input(&self, port: u8) -> (r: Result<D::DigitalOut, NotSimError>) where
        D: SimGPIODriver

        ensures
            r is Ok <==> self.spec_sim(),
    {
        if self.sim {
            Ok(D::sim_digital_input(port))
        } else {
            Err(NotSimError)
        }
    }

    /// The far end of a digital output port; answered only with
    /// simulation support.
    pub fn sim_digital_output(&self, port: u8) -> (r: Result<D::DigitalIn, NotSimError>) where
        D: SimGPIODriver

        ensures
            r is Ok <==> self.spec_sim(),
    {
        if self.sim {
            Ok(D::sim_digital_output(port))
        } else {
            Err(NotSimError)
        }
    }
}

} // verus!
