//! The pluggable program-time source.
//!
//! One [`TimeImplementation`] value carries the installed source's name
//! and the pause bookkeeping; the platform's [`ClockDriver`] supplies the
//! clock readings themselves.  Once the source has been read or replaced
//! it is frozen: a second installation is ruled out by contract, where
//! the unchecked equivalent would abort.

mod instant;

pub use instant::Instant;

use crate::hal::rt::time::ClockDriver;
use crate::units::time::Microsecond;
use vstd::prelude::*;

verus! {

/// Why a pause request was refused.
#[derive(Debug, Clone, Copy, PartialEq, Eq, Structural)]
pub enum PauseError {
    /// The installed time source cannot pause.
    PauseNotImplemented,
    /// Pausing while already paused.
    AlreadyPaused,
    /// Resuming while not paused.
    NotPaused,
}

/// The installed time source: its name, whether it can pause, whether it
/// is paused, and whether it is frozen against replacement.
pub struct TimeImplementation {
    implementation_name: String,
    pause_implemented: bool,
    paused: bool,
    frozen: bool,
}

impl TimeImplementation {
    /// The installed source's name.
    pub closed spec fn spec_name(&self) -> Seq<char> {
        self.implementation_name@
    }

    /// Whether the installed source can pause.
    pub closed spec fn spec_pause_implemented(&self) -> bool {
        self.pause_implemented
    }

    /// Whether the source is paused.
    pub closed spec fn spec_paused(&self) -> bool {
        self.paused
    }

    /// Whether the source is frozen against replacement.
    pub closed spec fn spec_frozen(&self) -> bool {
        self.frozen
    }

    /// The default source: running, pausable, not yet frozen.
    pub fn new_default() -> (r: Self)
        ensures
            r.spec_name() == "Default"@,
            r.spec_pause_implemented(),
            !r.spec_paused(),
            !r.spec_frozen(),
    {
        TimeImplementation {
            implementation_name: "Default".to_owned(),
            pause_implemented: true,
            paused: false,
            frozen: false,
        }
    }
}

/// The program uptime in microseconds, read from the driver's clock.
/// Reading the time freezes the source against replacement.
pub fn uptime<D: ClockDriver>(time: &mut TimeImplementation) -> (r: Microsecond)
    ensures
        final(time).spec_frozen(),
        final(time).spec_name() == old(time).spec_name(),
        final(time).spec_pause_implemented() == old(time).spec_pause_implemented(),
        final(time).spec_paused() == old(time).spec_paused(),
{
    time.frozen = true;
    D::uptime()
}

/// Pauses or resumes the time source.  The paused flag always takes the
/// requested value; the request is an error when it changes nothing or
/// when the source cannot pause, and only a successful request reaches
/// the driver.
pub fn try_pause<D: ClockDriver>(time: &mut TimeImplementation, should_pause: bool) -> (r: Result<
    (),
    PauseError,
>)
    ensures
        final(time).spec_paused() == should_pause,
        final(time).spec_name() == old(time).spec_name(),
        final(time).spec_pause_implemented() == old(time).spec_pause_implemented(),
        final(time).spec_frozen() == old(time).spec_frozen(),
        r == if old(time).spec_paused() == should_pause {
            Err::<(), PauseError>(
                if should_pause {
                    PauseError::AlreadyPaused
                } else {
                    PauseError::NotPaused
                },
            )
        } else if !old(time).spec_pause_implemented() {
            Err::<(), PauseError>(PauseError::PauseNotImplemented)
        } else {
            Ok::<(), PauseError>(())
        },
{
    let was = time.paused;
    time.paused = should_pause;
    if was == should_pause {
        if should_pause {
            Err(PauseError::AlreadyPaused)
        } else {
            Err(PauseError::NotPaused)
        }
    } else if !time.pause_implemented {
        Err(PauseError::PauseNotImplemented)
    } else {
        D::pause(should_pause);
        Ok(())
    }
}

/// Whether the time source is paused.
pub fn is_paused(time: &TimeImplementation) -> (r: bool)
    ensures
        r == time.spec_paused(),
{
    time.paused
}

/// Whether the time source supports pausing.
pub fn pause_implemented(time: &TimeImplementation) -> (r: bool)
    ensures
        r == time.spec_pause_implemented(),
{
    time.pause_implemented
}

/// Installs a time source: its name and whether it can pause.  The
/// source must not be frozen yet, and installing freezes it.
pub fn set_time_implementation(
    current: &mut TimeImplementation,
    implementation_name: String,
    can_pause: bool,
)
    requires
        !old(current).spec_frozen(),
    ensures
        final(current).spec_name() == implementation_name@,
        final(current).spec_pause_implemented() == can_pause,
        final(current).spec_frozen(),
        final(current).spec_paused() == old(current).spec_paused(),
{
    current.implementation_name = implementation_name;
    current.pause_implemented = can_pause;
    current.frozen = true;
}

} // verus!
