//! Core runtime pieces for a robot control library: a fixed-layout binary
//! struct serialization subsystem (packing, a schema description language
//! with a recursive parser, and a descriptor registry), a hardware
//! abstraction layer built from driver traits, and a pluggable time source.

pub mod hal;
pub mod structure;
pub mod text;
pub mod time;
pub mod units;
pub mod value;
