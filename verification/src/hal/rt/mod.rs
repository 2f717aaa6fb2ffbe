//! Real-time pieces of the hardware layer: the monotonic clock, alarm
//! notifiers, and the watchdog.

pub mod notifier;
pub mod time;
pub mod watchdog;
