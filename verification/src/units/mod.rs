//! The units the hardware layer speaks in.
//!
//! The full physical-units arithmetic lives outside this library; the
//! hardware layer only needs a voltage and a time span, carried here as
//! fixed-point integers so that contracts can speak about them exactly.

pub mod energy;
pub mod time;
