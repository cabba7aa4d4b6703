//! Reading the clocks: monotonic instants for animation pacing, Unix time
//! for data ages, and the local calendar date and time for the HUD clock
//! and the seasonal scene.

use vstd::prelude::*;
use std::time::{Instant, SystemTime};
use chrono::{DateTime, Local, NaiveDateTime};

verus! {

#[verifier::external_type_specification]
#[verifier::external_body]
pub struct ExInstant(Instant);

#[verifier::external_type_specification]
#[verifier::external_body]
pub struct ExSystemTime(SystemTime);

#[verifier::external_type_specification]
#[verifier::external_body]
pub struct ExNaiveDateTime(NaiveDateTime);

/// Calls `Instant::now`. Nothing is claimed of the instant.
#[verifier::external_body]
pub(crate) fn instant_now() -> Instant {
    Instant::now()
}

/// Calls `Instant::elapsed` and gives the whole milliseconds of the
/// duration. The time that passed is not known to the contract.
#[verifier::external_body]
pub(crate) fn elapsed_millis(since: &Instant) -> u128 {
    since.elapsed().as_millis()
}

/// Calls `SystemTime::now`. Nothing is claimed of the time.
#[verifier::external_body]
fn system_now() -> SystemTime {
    SystemTime::now()
}

/// Calls `SystemTime::duration_since(UNIX_EPOCH)` and gives whole seconds,
/// `None` for a time before the epoch. Nothing is claimed of the value.
#[verifier::external_body]
fn secs_since_epoch(t: &SystemTime) -> Option<u64> {
    match t.duration_since(std::time::UNIX_EPOCH) {
        Ok(d) => Some(d.as_secs()),
        Err(_) => None,
    }
}

/// Unix time from the seconds since the epoch: 0 for a time before 1970.
pub fn secs_or_zero(since_epoch: Option<u64>) -> (r: u64)
    ensures
        r == (match since_epoch {
            Some(secs) => secs,
            None => 0,
        }),
{
    match since_epoch {
        Some(secs) => secs,
        None => 0,
    }
}

/// Current Unix time in seconds, 0 if the system clock is before 1970
/// (see `secs_or_zero`); the value is the clock's.
pub fn unix_now() -> u64 {
    let now = system_now();
    secs_or_zero(secs_since_epoch(&now))
}

/// The last second of the year 9999 as Unix time. Up to it chrono finds
/// every local time: the timestamp, its local time type in the zone rules
/// and the wall clock time a day either way all lie well inside chrono's
/// calendar range.
pub const LAST_CALENDAR_SECOND: i64 = 253_402_300_799;

/// Calls `chrono::DateTime::from_timestamp` for the Unix time `secs`,
/// converts the instant to the local time zone (`with_timezone(&Local)`)
/// and takes the wall clock date and time (`naive_local`). On the range
/// that `requires` admits, `from_timestamp` gives `Some`, the zone lookup
/// finds a local time type, and a UTC offset of less than a day keeps the
/// local time inside `NaiveDateTime`'s range, so chrono's checks there do
/// not fail. Which offset applies depends on the machine's time zone, so
/// nothing is claimed of the date and time. Left unsaid: chrono unwraps
/// the offset it reads from the zone data, which fails only for a zone
/// file that gives an offset of a whole day or more; no argument decides
/// that.
#[verifier::external_body]
fn local_date_time(secs: i64) -> (r: Option<NaiveDateTime>)
    requires
        0 <= secs <= LAST_CALENDAR_SECOND,
    ensures
        r is Some,
{
    match DateTime::from_timestamp(secs, 0) {
        Some(t) => Some(t.with_timezone(&Local).naive_local()),
        None => None,
    }
}

/// Calls `Datelike::month`; chrono documents the range 1 to 12.
#[verifier::external_body]
fn month_of(t: &NaiveDateTime) -> (m: u32)
    ensures
        1 <= m <= 12,
{
    chrono::Datelike::month(t)
}

/// Calls `Datelike::day`; chrono documents the range 1 to 31.
#[verifier::external_body]
fn day_of(t: &NaiveDateTime) -> (d: u32)
    ensures
        1 <= d <= 31,
{
    chrono::Datelike::day(t)
}

/// Calls `Timelike::hour`; chrono documents the range 0 to 23.
#[verifier::external_body]
fn hour_of(t: &NaiveDateTime) -> (h: u32)
    ensures
        h <= 23,
{
    chrono::Timelike::hour(t)
}

/// Calls `Timelike::minute`; chrono documents the range 0 to 59.
#[verifier::external_body]
fn minute_of(t: &NaiveDateTime) -> (m: u32)
    ensures
        m <= 59,
{
    chrono::Timelike::minute(t)
}

/// The local calendar position that the HUD clock and the seasonal scene
/// depend on.
#[derive(Debug, Clone, Copy, PartialEq, Eq, Structural)]
pub struct LocalClock {
    pub month: u32,
    pub day: u32,
    pub hour: u32,
    pub minute: u32,
}

impl LocalClock {
    /// A month, day of month and hour as a calendar can show them.
    pub open spec fn wf(self) -> bool {
        &&& 1 <= self.month <= 12
        &&& 1 <= self.day <= 31
        &&& self.hour <= 23
        &&& self.minute <= 59
    }
}

/// Reads the local date and time once: `None` when the system clock lies
/// before 1970 or after the year 9999 (`LAST_CALENDAR_SECOND`).
pub fn read_local_clock() -> (c: Option<LocalClock>)
    ensures
        c matches Some(now) ==> now.wf(),
{
    let now = system_now();
    match secs_since_epoch(&now) {
        Some(secs) => local_clock_at(secs),
        None => None,
    }
}

/// The local calendar position at Unix time `secs`: `Some` exactly when
/// `secs` lies within the calendar that the clock reads
/// (`LAST_CALENDAR_SECOND` at the latest); the fields then come from the
/// local date and time, which depends on the machine's time zone.
pub fn local_clock_at(secs: u64) -> (c: Option<LocalClock>)
    ensures
        c is Some <==> secs <= LAST_CALENDAR_SECOND,
        c matches Some(now) ==> now.wf(),
{
    if secs > LAST_CALENDAR_SECOND as u64 {
        return None;
    }
    match local_date_time(secs as i64) {
        Some(t) => Some(
            LocalClock {
                month: month_of(&t),
                day: day_of(&t),
                hour: hour_of(&t),
                minute: minute_of(&t),
            },
        ),
        None => None,
    }
}

} // verus!
