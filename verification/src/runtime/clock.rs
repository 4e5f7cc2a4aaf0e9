//! Readings of the system clock. A [`ClockReading`] can only be had from
//! [`read_clock`], so what is computed from one is computed from the clock.
use std::time::{Duration, SystemTime, UNIX_EPOCH};
use vstd::prelude::*;

verus! {

/// A point in time, held as std gives it.
#[verifier::external_type_specification]
#[verifier::external_body]
pub struct ExSystemTime(SystemTime);

/// `SystemTime::now` from std. Nothing is stated of the reading: it depends
/// on the clock.
#[verifier::external_body]
fn system_now() -> SystemTime {
    SystemTime::now()
}

/// `SystemTime::duration_since` from std, taken against the Unix epoch;
/// `None` where std reports an error (a clock set before 1970). Nothing is
/// stated of the duration: it is the clock reading.
#[verifier::external_body]
fn since_unix_epoch(t: SystemTime) -> Option<Duration> {
    t.duration_since(UNIX_EPOCH).ok()
}

/// The number of whole nanoseconds in a duration, as `Duration::as_nanos`
/// gives it.
pub uninterp spec fn duration_nanos(d: Duration) -> u128;

/// `Duration::as_nanos` from std: the duration's total number of
/// nanoseconds, which depends on the duration alone.
#[verifier::external_body]
pub(crate) fn duration_as_nanos(d: Duration) -> (nanos: u128)
    ensures
        nanos == duration_nanos(d),
{
    d.as_nanos()
}

/// One reading of the system clock: the nanoseconds since the Unix epoch,
/// or none when the clock read before the epoch.
pub struct ClockReading {
    nanos: Option<u128>,
}

impl ClockReading {
    /// The nanoseconds since the Unix epoch that the reading holds.
    pub closed spec fn nanos_since_epoch(self) -> Option<u128> {
        self.nanos
    }

    /// The nanoseconds since the Unix epoch that the reading holds.
    pub fn nanos(&self) -> (nanos: Option<u128>)
        ensures
            nanos == self.nanos_since_epoch(),
    {
        self.nanos
    }
}

/// Reads the system clock.
pub fn read_clock() -> ClockReading {
    match since_unix_epoch(system_now()) {
        Some(now) => ClockReading { nanos: Some(duration_as_nanos(now)) },
        None => ClockReading { nanos: None },
    }
}

} // verus!
