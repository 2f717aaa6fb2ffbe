use frclib_core::hal::rt::time::ClockDriver;
use frclib_core::time::is_paused;
use frclib_core::time::pause_implemented;
use frclib_core::time::set_time_implementation;
use frclib_core::time::try_pause;
use frclib_core::time::uptime;
use frclib_core::time::Instant;
use frclib_core::time::PauseError;
use frclib_core::time::TimeImplementation;
use frclib_core::units::time::Microsecond;

struct FixedClock;

impl ClockDriver for FixedClock {
    fn use_default_driver() -> bool {
        false
    }
    fn can_pause() -> bool {
        true
    }
    fn uptime() -> Microsecond {
        Microsecond::new(1_000_000)
    }
    fn system_time_valid() -> bool {
        true
    }
}

#[test]
fn pause_bookkeeping() {
    let mut time = TimeImplementation::new_default();
    assert!(pause_implemented(&time));
    assert!(!is_paused(&time));
    assert_eq!(try_pause::<FixedClock>(&mut time, true), Ok(()));
    assert!(is_paused(&time));
    assert_eq!(
        try_pause::<FixedClock>(&mut time, true),
        Err(PauseError::AlreadyPaused)
    );
    assert_eq!(try_pause::<FixedClock>(&mut time, false), Ok(()));
    assert_eq!(
        try_pause::<FixedClock>(&mut time, false),
        Err(PauseError::NotPaused)
    );
}

#[test]
fn pause_without_support() {
    let mut time = TimeImplementation::new_default();
    set_time_implementation(&mut time, "Fixed".to_owned(), false);
    assert!(!pause_implemented(&time));
    assert_eq!(
        try_pause::<FixedClock>(&mut time, true),
        Err(PauseError::PauseNotImplemented)
    );
    // the paused flag moves even when the refusal comes after the swap
    assert!(is_paused(&time));
}

#[test]
fn uptime_freezes_the_source() {
    let mut time = TimeImplementation::new_default();
    let m = uptime::<FixedClock>(&mut time);
    assert_eq!(m, Microsecond::new(1_000_000));
    let now = Instant::now::<FixedClock>(&mut time);
    assert_eq!(now, Instant(1_000_000));
    assert_eq!(now.elapsed::<FixedClock>(&mut time), 0);
}

#[test]
fn instant_arithmetic() {
    let a = Instant(100);
    let b = Instant(250);
    assert_eq!(b.duration_since(a), 150);
    assert_eq!(a.duration_since(b), 0);
    assert_eq!(b.checked_duration_since(a), Some(150));
    assert_eq!(a.checked_duration_since(b), None);
    assert_eq!(b.saturating_duration_since(a), 150);
    assert_eq!(a.saturating_duration_since(b), 0);
    assert_eq!(a.checked_add(50), Some(Instant(150)));
    assert_eq!(a.checked_add(u64::MAX), None);
    assert_eq!(b.checked_sub(250), Some(Instant(0)));
    assert_eq!(b.checked_sub(251), None);
}
