//! Analog GPIO channel traits.

use super::Channel;
use crate::units::energy::Volt;
use vstd::prelude::*;

verus! {

/// A channel that reads analog data.
pub trait AnalogInputChannel: Channel {
    /// The raw reading; a platform need not use all 32 bits.
    fn read_raw(&self) -> u32;

    /// The current voltage with as little processing as possible.
    fn read_volts_instant(&self) -> Volt;

    /// The current voltage.
    fn read_volts(&self) -> Volt;

    /// The channel's voltage range, low end first.
    fn voltage_range(&self) -> (Volt, Volt);
}

/// A channel that writes analog data.
pub trait AnalogOutputChannel: Channel {
    /// Writes a raw value; a platform need not use all 32 bits.
    fn write_raw(&mut self, value: u32);

    /// Writes a voltage.
    fn write_volts(&mut self, value: Volt);

    /// The channel's voltage range, low end first.
    fn voltage_range(&self) -> (Volt, Volt);
}

/// A channel that both reads and writes analog data.
pub trait AnalogBiChannel: AnalogInputChannel + AnalogOutputChannel {

}

impl<T: AnalogInputChannel + AnalogOutputChannel> AnalogBiChannel for T {

}

} // verus!
