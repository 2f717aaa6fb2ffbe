//! Real-time alarm notifiers.

use crate::units::time::Microsecond;
use core::marker::PhantomData;
use vstd::prelude::*;

verus! {

/// How an alarm is (re)armed.
#[derive(Debug, Clone, Copy)]
pub enum NotifierUpdateType {
    /// Trigger every `period`; when an entire alarm is missed it is
    /// skipped or queued according to `skip_missed`.
    Periodic { period: Microsecond, skip_missed: bool },
    /// Trigger once at an absolute time.
    OneShot { trigger_time: Microsecond },
    /// Trigger once at an offset from now.
    RelativeOneShot { trigger_offset_time: Microsecond },
}

/// A platform's alarm handle.
pub trait Notifier: Send + Sync {
    /// The notifier's name, for debugging.
    fn get_name(&self) -> &str;

    /// Re-arms the alarm.
    fn update_alarm(&mut self, update: NotifierUpdateType);

    /// Cancels the alarm.
    fn cancel_alarm(&mut self);

    /// Blocks until the alarm triggers; the time it triggered at.
    fn wait_for_alarm(&mut self) -> Microsecond;
}

/// A platform's notifier driver.
pub trait NotifierDriver: Sized {
    /// The alarm handle this driver hands out.
    type Handle: Notifier;

    /// Creates a new notifier.
    fn new_notifier() -> Self::Handle;
}

/// The notifier dispatch table of one driver.
pub struct NotifierVTable<D: NotifierDriver> {
    marker: PhantomData<D>,
}

impl<D: NotifierDriver> Clone for NotifierVTable<D> {
    fn clone(&self) -> (r: Self) {
        NotifierVTable { marker: PhantomData }
    }
}

impl<D: NotifierDriver> Copy for NotifierVTable<D> {

}

impl<D: NotifierDriver> NotifierVTable<D> {
    /// The table of a driver.
    pub fn from_driver() -> (r: Self) {
        NotifierVTable { marker: PhantomData }
    }

    /// Creates a new notifier.
    pub fn new_notifier(&self) -> D::Handle {
        D::new_notifier()
    }
}

} // verus!
