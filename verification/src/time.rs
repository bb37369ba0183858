//! Local date-time values and time intervals, as the schedule builders read them.

use chrono::{Datelike, Timelike};
use vstd::prelude::*;

verus! {

/// Earliest timestamp (seconds since the Unix epoch) that the library converts to local time:
/// the first second of the year −262143, chrono's earliest moment, plus the largest time-zone
/// offset (one second short of a day), so that the local time exists at any offset.
pub const MIN_TIMESTAMP: i64 = -8_334_601_228_801i64;

/// Latest timestamp (seconds since the Unix epoch) that the library converts to local time:
/// the last second of the year 262142, chrono's latest moment, less the largest time-zone offset
/// (one second short of a day), so that the local time exists at any offset.
pub const MAX_TIMESTAMP: i64 = 8_210_266_790_400i64;

/// Number of seconds in a day.
pub const SECONDS_PER_DAY: i64 = 86_400i64;

/// A moment, together with the local calendar fields that the schedule builders read.
///
/// Moments are ordered by `timestamp`; the other fields describe the same moment in the local
/// time zone.
#[derive(Clone, Copy, PartialEq, Eq, Structural, Debug)]
pub struct LocalDateTime {
    /// Seconds since the Unix epoch.
    pub timestamp: i64,
    /// Local calendar day, counted from the first day of the common era.
    pub day: i32,
    /// Local hour of the day.
    pub hour: u32,
    /// Local minute of the hour.
    pub minute: u32,
}

impl LocalDateTime {
    /// The clock fields are in range.
    pub open spec fn wf(self) -> bool {
        self.hour < 24 && self.minute < 60
    }

    /// Convert the timestamp into local time.
    pub fn at(timestamp: i64) -> (moment: LocalDateTime)
        requires
            MIN_TIMESTAMP <= timestamp <= MAX_TIMESTAMP,
        ensures
            moment.timestamp == timestamp,
            moment.wf(),
    {
        local_date_time_at(timestamp)
    }

    /// The same moment of the next day: 86400 seconds later.
    pub fn one_day_later(&self) -> (moment: LocalDateTime)
        requires
            MIN_TIMESTAMP <= self.timestamp <= MAX_TIMESTAMP - SECONDS_PER_DAY,
        ensures
            moment.timestamp == self.timestamp + SECONDS_PER_DAY,
            moment.wf(),
    {
        local_date_time_at(self.timestamp + SECONDS_PER_DAY)
    }
}

/// Converts the Unix timestamp with `chrono::DateTime::from_timestamp` and
/// `DateTime::with_timezone(&chrono::Local)`, then reads the local day, hour and minute.
///
/// Claimed: the result keeps the timestamp, and its hour and minute are in range, as
/// `Timelike::hour` and `Timelike::minute` document. `from_timestamp` returns `None` only outside
/// chrono's range (the years −262143 to 262142), and reading the local fields panics only when
/// the UTC time plus the zone's offset (less than a day either way) leaves that range; the
/// required range keeps a day's margin inside it. The local fields themselves depend on the
/// machine's time zone and are left unsaid.
#[verifier::external_body]
fn local_date_time_at(timestamp: i64) -> (moment: LocalDateTime)
    requires
        MIN_TIMESTAMP <= timestamp <= MAX_TIMESTAMP,
    ensures
        moment.timestamp == timestamp,
        moment.wf(),
{
    let utc = chrono::DateTime::from_timestamp(timestamp, 0).expect("within chrono's range");
    let local = utc.with_timezone(&chrono::Local);
    LocalDateTime {
        timestamp,
        day: local.date_naive().num_days_from_ce(),
        hour: local.hour(),
        minute: local.minute(),
    }
}

/// Half-open time interval `start..end`.
#[derive(Clone, Copy, PartialEq, Eq, Structural, Debug)]
pub struct Interval {
    pub start: LocalDateTime,
    pub end: LocalDateTime,
}

impl Interval {
    /// Build the interval from a standard library range.
    pub fn from_std(range: core::ops::Range<LocalDateTime>) -> (interval: Interval)
        ensures
            interval.start == range.start,
            interval.end == range.end,
    {
        Interval { start: range.start, end: range.end }
    }

    /// The moment falls into the interval.
    pub open spec fn spec_contains(self, moment: LocalDateTime) -> bool {
        self.start.timestamp <= moment.timestamp && moment.timestamp < self.end.timestamp
    }

    /// The moment falls into the interval.
    pub fn contains(&self, moment: LocalDateTime) -> (result: bool)
        ensures
            result == self.spec_contains(moment),
    {
        self.start.timestamp <= moment.timestamp && moment.timestamp < self.end.timestamp
    }

    /// The same interval, starting at `start`.
    pub fn with_start(&self, start: LocalDateTime) -> (interval: Interval)
        ensures
            interval == (Interval { start, end: self.end }),
    {
        Interval { start, end: self.end }
    }

    /// The same interval, ending at `end`.
    pub fn with_end(&self, end: LocalDateTime) -> (interval: Interval)
        ensures
            interval == (Interval { start: self.start, end }),
    {
        Interval { start: self.start, end }
    }
}

} // verus!
