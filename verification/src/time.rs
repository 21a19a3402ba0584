//! A simple timestamp type for abstracting away various time concerns.

use vstd::prelude::*;

verus! {

/// A moment in time, as whole seconds since the Unix epoch.
#[derive(Debug, Clone, Copy, PartialEq, Eq, Structural, PartialOrd, Ord, Hash)]
pub struct Timestamp(u64);

impl View for Timestamp {
    type V = u64;

    /// A timestamp is modelled by the number of seconds it holds.
    closed spec fn view(&self) -> u64 {
        self.0
    }
}

impl Timestamp {
    /// Creates a new timestamp representing the current time.  Convenience
    /// function that calls [`current_timestamp`].
    pub fn now() -> Timestamp {
        current_timestamp()
    }

    /// Creates a timestamp from the given number of seconds.
    pub fn new(secs: u64) -> (r: Self)
        ensures
            r@ == secs,
    {
        Self(secs)
    }

    /// The number of seconds that this timestamp represents.
    pub fn as_secs(self) -> (r: u64)
        ensures
            r == self@,
    {
        self.0
    }

    /// Creates a duration from this timestamp.
    pub fn as_duration(self) -> core::time::Duration {
        duration_from_secs(self.0)
    }

    /// Creates a system time from this timestamp.
    pub fn as_system_time(self) -> std::time::SystemTime {
        system_time_from_secs(self.0)
    }
}

/// The platform's wall-clock time type, opaque here; it only passes
/// through to callers outside the library.
#[verifier::external_type_specification]
#[verifier::external_body]
pub struct ExSystemTime(std::time::SystemTime);

/// Relies on `std::time::SystemTime::checked_add` over
/// `std::time::UNIX_EPOCH`; the system-time type is opaque here, so
/// nothing further is stated of it.  A timestamp beyond the platform's
/// representable range is reported as the epoch itself rather than
/// panicking.
#[verifier::external_body]
fn system_time_from_secs(secs: u64) -> std::time::SystemTime {
    match std::time::UNIX_EPOCH.checked_add(core::time::Duration::from_secs(secs)) {
        Some(t) => t,
        None => std::time::UNIX_EPOCH,
    }
}

/// Relies on `core::time::Duration::from_secs` to build the duration; the
/// duration type is opaque here, so nothing further is stated of it.
#[verifier::external_body]
fn duration_from_secs(secs: u64) -> core::time::Duration {
    core::time::Duration::from_secs(secs)
}

/// Creates a new timestamp representing the current time.
///
/// Relies on `std::time::SystemTime::now`; a clock reading before the Unix
/// epoch is reported as the epoch itself.  Nothing can be promised of the
/// value read from the clock.
#[verifier::external_body]
pub fn current_timestamp() -> Timestamp {
    let secs = std::time::SystemTime::now()
        .duration_since(std::time::UNIX_EPOCH)
        .map(|d| d.as_secs())
        .unwrap_or(0);
    Timestamp(secs)
}

} // verus!
