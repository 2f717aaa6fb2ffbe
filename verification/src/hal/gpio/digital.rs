//! Digital GPIO channel traits.

use super::Channel;
use vstd::prelude::*;

verus! {

/// A channel that reads one bit.
pub trait DigitalInputChannel: Channel {
    /// The channel's current pull.
    fn read(&self) -> bool;
}

/// A channel that writes one bit.
pub trait DigitalOutputChannel: Channel {
    /// Sets the channel's pull.
    fn write(&mut self, value: bool);
}

/// A channel that both reads and writes one bit.
pub trait DigitalBiChannel: DigitalInputChannel + DigitalOutputChannel {

}

impl<T: DigitalInputChannel + DigitalOutputChannel> DigitalBiChannel for T {

}

} // verus!
