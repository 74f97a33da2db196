//! Dates, times and UTC instants as chrono represents them, and their
//! conversion into the integers that Arrow's temporal columns store.
//!
//! A value holds the plain numbers chrono itself keeps: the day number in the
//! proleptic Gregorian calendar (0001-01-01 is day 1), the seconds since
//! midnight and the nanoseconds within the second (at or above one billion
//! during a leap second).  The timestamp arithmetic is chrono's, reached
//! through the trusted functions at the end of this file.

use vstd::prelude::*;
use vstd::pervasive::unreached;

use crate::constants::SECONDS_IN_DAY;

verus! {

/// Day number of 1970-01-01, counting 0001-01-01 as day 1.
pub const UNIX_EPOCH_DAY: i64 = 719_163;

/// Day number of chrono's earliest date, -262143-01-01.
pub const MIN_DAYS_FROM_CE: i32 = -95_746_129;

/// Day number of chrono's latest date, +262142-12-31.
pub const MAX_DAYS_FROM_CE: i32 = 95_745_399;

/// A day number that chrono can represent as a date.
pub open spec fn valid_days_from_ce(days: int) -> bool {
    MIN_DAYS_FROM_CE <= days <= MAX_DAYS_FROM_CE
}

/// A time of day that chrono can represent: a second of the day, and a
/// nanosecond that reaches into a leap second only at second 59 of a minute.
pub open spec fn valid_time_of_day(secs: int, nano: int) -> bool {
    &&& 0 <= secs < 86_400
    &&& 0 <= nano < 2_000_000_000
    &&& nano >= 1_000_000_000 ==> secs % 60 == 59
}

/// Non-leap seconds since 1970-01-01T00:00:00Z.
pub open spec fn unix_seconds(days: int, secs: int) -> int {
    (days - UNIX_EPOCH_DAY) * 86_400 + secs
}

/// Non-leap microseconds since 1970-01-01T00:00:00Z.
pub open spec fn unix_micros(days: int, secs: int, nano: int) -> int {
    unix_seconds(days, secs) * 1_000_000 + nano / 1_000
}

/// Non-leap nanoseconds since 1970-01-01T00:00:00Z.
pub open spec fn unix_nanos(days: int, secs: int, nano: int) -> int {
    unix_seconds(days, secs) * 1_000_000_000 + nano
}

/// The nanosecond timestamp where it fits in an `i64`, and `None` elsewhere.
pub open spec fn unix_nanos_opt(days: int, secs: int, nano: int) -> Option<i64> {
    let v = unix_nanos(days, secs, nano);
    if i64::MIN <= v <= i64::MAX {
        Some(v as i64)
    } else {
        None
    }
}

/// A calendar date (chrono's `NaiveDate`).
#[derive(Clone, Copy, Debug, PartialEq, Eq, Structural)]
pub struct NaiveDate {
    days_from_ce: i32,
}

impl NaiveDate {
    #[verifier::type_invariant]
    spec fn inv(self) -> bool {
        valid_days_from_ce(self.days_from_ce as int)
    }

    /// The day number, 0001-01-01 being day 1.
    pub closed spec fn days(self) -> int {
        self.days_from_ce as int
    }

    /// The date with the given day number, where chrono can represent it.
    pub fn from_num_days_from_ce_opt(days: i32) -> (r: Option<NaiveDate>)
        ensures
            r is Some <==> valid_days_from_ce(days as int),
            r matches Some(d) ==> d.days() == days,
    {
        if MIN_DAYS_FROM_CE <= days && days <= MAX_DAYS_FROM_CE {
            Some(NaiveDate { days_from_ce: days })
        } else {
            None
        }
    }

    /// The day number, 0001-01-01 being day 1.
    pub fn num_days_from_ce(&self) -> (r: i32)
        ensures
            r == self.days(),
            valid_days_from_ce(r as int),
    {
        proof {
            use_type_invariant(self);
        }
        self.days_from_ce
    }

    /// This date at the given time.
    pub fn and_time(&self, time: NaiveTime) -> (r: NaiveDateTime)
        ensures
            r.days() == self.days(),
            r.secs() == time.secs(),
            r.nanos() == time.nanos(),
    {
        NaiveDateTime { date: *self, time }
    }

    /// This date at the given hour, minute and second, where they name a
    /// time of day.
    pub fn and_hms_opt(&self, hour: u32, min: u32, sec: u32) -> (r: Option<NaiveDateTime>)
        ensures
            r is Some <==> (hour < 24 && min < 60 && sec < 60),
            r matches Some(dt) ==> {
                &&& dt.days() == self.days()
                &&& dt.secs() == hour * 3600 + min * 60 + sec
                &&& dt.nanos() == 0
            },
    {
        match NaiveTime::from_hms_opt(hour, min, sec) {
            Some(time) => Some(self.and_time(time)),
            None => None,
        }
    }
}

/// A time of day (chrono's `NaiveTime`).
#[derive(Clone, Copy, Debug, PartialEq, Eq, Structural)]
pub struct NaiveTime {
    secs: u32,
    frac: u32,
}

impl NaiveTime {
    #[verifier::type_invariant]
    spec fn inv(self) -> bool {
        valid_time_of_day(self.secs as int, self.frac as int)
    }

    /// Seconds since midnight.
    pub closed spec fn secs(self) -> int {
        self.secs as int
    }

    /// Nanoseconds within the second.
    pub closed spec fn nanos(self) -> int {
        self.frac as int
    }

    /// The time `secs` seconds and `nano` nanoseconds after midnight, where
    /// chrono can represent it.
    pub fn from_num_seconds_from_midnight_opt(secs: u32, nano: u32) -> (r: Option<NaiveTime>)
        ensures
            r is Some <==> valid_time_of_day(secs as int, nano as int),
            r matches Some(t) ==> t.secs() == secs && t.nanos() == nano,
    {
        if secs >= 86_400 || nano >= 2_000_000_000 || (nano >= 1_000_000_000 && secs % 60 != 59) {
            None
        } else {
            Some(NaiveTime { secs, frac: nano })
        }
    }

    /// The time at the given hour, minute and second, where they name a time
    /// of day.
    pub fn from_hms_opt(hour: u32, min: u32, sec: u32) -> (r: Option<NaiveTime>)
        ensures
            r is Some <==> (hour < 24 && min < 60 && sec < 60),
            r matches Some(t) ==> t.secs() == hour * 3600 + min * 60 + sec && t.nanos() == 0,
    {
        if hour >= 24 || min >= 60 || sec >= 60 {
            None
        } else {
            Some(NaiveTime { secs: hour * 3600 + min * 60 + sec, frac: 0 })
        }
    }

    /// Seconds since midnight.
    pub fn num_seconds_from_midnight(&self) -> (r: u32)
        ensures
            r == self.secs(),
            r < 86_400,
    {
        proof {
            use_type_invariant(self);
        }
        self.secs
    }

    /// Nanoseconds within the second.
    pub fn nanosecond(&self) -> (r: u32)
        ensures
            r == self.nanos(),
            r < 2_000_000_000,
    {
        proof {
            use_type_invariant(self);
        }
        self.frac
    }
}

/// A date and a time of day with no time zone (chrono's `NaiveDateTime`).
#[derive(Clone, Copy, Debug, PartialEq, Eq, Structural)]
pub struct NaiveDateTime {
    date: NaiveDate,
    time: NaiveTime,
}

impl NaiveDateTime {
    /// Day number of the date.
    pub closed spec fn days(self) -> int {
        self.date.days()
    }

    /// Seconds since midnight.
    pub closed spec fn secs(self) -> int {
        self.time.secs()
    }

    /// Nanoseconds within the second.
    pub closed spec fn nanos(self) -> int {
        self.time.nanos()
    }

    /// The given date at the given time.
    pub fn new(date: NaiveDate, time: NaiveTime) -> (r: NaiveDateTime)
        ensures
            r.days() == date.days(),
            r.secs() == time.secs(),
            r.nanos() == time.nanos(),
    {
        NaiveDateTime { date, time }
    }

    /// The date.
    pub fn date(&self) -> (r: NaiveDate)
        ensures
            r.days() == self.days(),
    {
        self.date
    }

    /// The time of day.
    pub fn time(&self) -> (r: NaiveTime)
        ensures
            r.secs() == self.secs(),
            r.nanos() == self.nanos(),
    {
        self.time
    }

    /// This date and time read as UTC.
    pub fn and_utc(&self) -> (r: DateTime)
        ensures
            r.days() == self.days(),
            r.secs() == self.secs(),
            r.nanos() == self.nanos(),
    {
        DateTime { datetime: *self }
    }
}

/// An instant, held as its UTC date and time (chrono's `DateTime<Utc>`).
#[derive(Clone, Copy, Debug, PartialEq, Eq, Structural)]
pub struct DateTime {
    datetime: NaiveDateTime,
}

impl DateTime {
    /// Day number of the UTC date.
    pub closed spec fn days(self) -> int {
        self.datetime.days()
    }

    /// Seconds since UTC midnight.
    pub closed spec fn secs(self) -> int {
        self.datetime.secs()
    }

    /// Nanoseconds within the second.
    pub closed spec fn nanos(self) -> int {
        self.datetime.nanos()
    }

    /// The instant whose UTC date and time are `datetime`.
    pub fn from_naive_utc(datetime: NaiveDateTime) -> (r: DateTime)
        ensures
            r.days() == datetime.days(),
            r.secs() == datetime.secs(),
            r.nanos() == datetime.nanos(),
    {
        DateTime { datetime }
    }

    /// The UTC date and time.
    pub fn naive_utc(&self) -> (r: NaiveDateTime)
        ensures
            r.days() == self.days(),
            r.secs() == self.secs(),
            r.nanos() == self.nanos(),
    {
        self.datetime
    }

    /// Non-leap seconds since 1970-01-01T00:00:00Z.
    pub fn timestamp(&self) -> (r: i64)
        ensures
            r == unix_seconds(self.days(), self.secs()),
    {
        proof {
            use_type_invariant(&self.datetime.date);
            use_type_invariant(&self.datetime.time);
        }
        chrono_timestamp(self.datetime.date.days_from_ce, self.datetime.time.secs, self.datetime.time.frac)
    }

    /// Non-leap microseconds since 1970-01-01T00:00:00Z.
    pub fn timestamp_micros(&self) -> (r: i64)
        ensures
            r == unix_micros(self.days(), self.secs(), self.nanos()),
    {
        proof {
            use_type_invariant(&self.datetime.date);
            use_type_invariant(&self.datetime.time);
        }
        chrono_timestamp_micros(
            self.datetime.date.days_from_ce,
            self.datetime.time.secs,
            self.datetime.time.frac,
        )
    }

    /// Non-leap nanoseconds since 1970-01-01T00:00:00Z, where they fit in an
    /// `i64` (from 1677-09-21T00:12:43.145224192Z to
    /// 2262-04-11T23:47:16.854775807Z).
    pub fn timestamp_nanos_opt(&self) -> (r: Option<i64>)
        ensures
            r == unix_nanos_opt(self.days(), self.secs(), self.nanos()),
    {
        proof {
            use_type_invariant(&self.datetime.date);
            use_type_invariant(&self.datetime.time);
        }
        chrono_timestamp_nanos_opt(
            self.datetime.date.days_from_ce,
            self.datetime.time.secs,
            self.datetime.time.frac,
        )
    }
}

/// An instant written to Arrow with microsecond precision and a UTC zone.
#[derive(Clone, Copy, Debug, PartialEq, Eq, Structural)]
pub struct DateTimeWrapperMicro(pub DateTime);

/// A date and time written to Arrow with microsecond precision.
#[derive(Clone, Copy, Debug, PartialEq, Eq, Structural)]
pub struct NaiveDateTimeWrapperMicro(pub NaiveDateTime);

/// A time of day written to Arrow with microsecond precision.
#[derive(Clone, Copy, Debug, PartialEq, Eq, Structural)]
pub struct NaiveTimeWrapperMicro(pub NaiveTime);

/// Arrow's `Date32` value of a date: days since 1970-01-01.
pub open spec fn date32_of(d: NaiveDate) -> int {
    d.days() - UNIX_EPOCH_DAY
}

/// Arrow's nanosecond timestamp of a UTC date and time.
pub open spec fn timestamp_nanos_of(dt: NaiveDateTime) -> Option<i64> {
    unix_nanos_opt(dt.days(), dt.secs(), dt.nanos())
}

/// Arrow's microsecond timestamp of a UTC date and time.
pub open spec fn timestamp_micros_of(dt: NaiveDateTime) -> int {
    unix_micros(dt.days(), dt.secs(), dt.nanos())
}

/// Arrow's nanosecond timestamp of an instant.
pub open spec fn instant_nanos_of(d: DateTime) -> Option<i64> {
    unix_nanos_opt(d.days(), d.secs(), d.nanos())
}

/// Arrow's microsecond timestamp of an instant.
pub open spec fn instant_micros_of(d: DateTime) -> int {
    unix_micros(d.days(), d.secs(), d.nanos())
}

/// Arrow's `Time64(Nanosecond)` value of a time of day.
pub open spec fn time64_nanos_of(t: NaiveTime) -> int {
    t.secs() * 1_000_000_000 + t.nanos()
}

/// Arrow's `Time64(Microsecond)` value of a time of day.
pub open spec fn time64_micros_of(t: NaiveTime) -> int {
    t.secs() * 1_000_000 + t.nanos() / 1_000
}

/// The `Date32` value of a date: the days from 1970-01-01 to it, read off
/// the timestamp of its midnight.
pub fn naive_date_to_arrow(nd: NaiveDate) -> (r: i32)
    ensures
        r == date32_of(nd),
{
    proof {
        use_type_invariant(&nd);
    }
    match nd.and_hms_opt(0, 0, 0) {
        Some(dt) => {
            let ts = dt.and_utc().timestamp();
            assert(ts == (nd.days() - UNIX_EPOCH_DAY) * SECONDS_IN_DAY);
            (ts / SECONDS_IN_DAY) as i32
        },
        None => unreached(),
    }
}

/// The nanosecond timestamp of a date and time read as UTC; it must lie
/// within the range that an `i64` of nanoseconds spans.
pub fn naive_datetime_to_arrow(nd: NaiveDateTime) -> (r: i64)
    requires
        timestamp_nanos_of(nd) is Some,
    ensures
        Some(r) == timestamp_nanos_of(nd),
{
    match nd.and_utc().timestamp_nanos_opt() {
        Some(ns) => ns,
        None => unreached(),
    }
}

/// The microsecond timestamp of a date and time read as UTC.
pub fn naive_datetime_to_arrow_micros(nd: NaiveDateTime) -> (r: i64)
    ensures
        r == timestamp_micros_of(nd),
{
    nd.and_utc().timestamp_micros()
}

/// The `Time64(Nanosecond)` value of a time of day.
pub fn naive_time_to_arrow_nanos(t: NaiveTime) -> (r: i64)
    ensures
        r == time64_nanos_of(t),
{
    t.num_seconds_from_midnight() as i64 * 1_000_000_000 + t.nanosecond() as i64
}

/// The `Time64(Microsecond)` value of a time of day.
pub fn naive_time_to_arrow_micros(t: NaiveTime) -> (r: i64)
    ensures
        r == time64_micros_of(t),
{
    t.num_seconds_from_midnight() as i64 * 1_000_000 + (t.nanosecond() as i64) / 1000
}

/// Calls chrono's `DateTime::<Utc>::timestamp` on the UTC date and time with
/// day number `days_from_ce`, `secs` seconds after midnight and `nano`
/// nanoseconds into the second.  Trusted: the result is chrono's formula
/// `(num_days_from_ce - 719_163) * 86_400 + num_seconds_from_midnight`.
#[verifier::external_body]
fn chrono_timestamp(days_from_ce: i32, secs: u32, nano: u32) -> (r: i64)
    requires
        valid_days_from_ce(days_from_ce as int),
        valid_time_of_day(secs as int, nano as int),
    ensures
        r == unix_seconds(days_from_ce as int, secs as int),
{
    let date = chrono::NaiveDate::from_num_days_from_ce_opt(days_from_ce).unwrap();
    let time = chrono::NaiveTime::from_num_seconds_from_midnight_opt(secs, nano).unwrap();
    date.and_time(time).and_utc().timestamp()
}

/// Calls chrono's `DateTime::<Utc>::timestamp_micros` on the UTC date and
/// time given as in `chrono_timestamp`.  Trusted: the result is chrono's
/// formula `timestamp() * 1_000_000 + nanosecond / 1_000`, which never
/// overflows on chrono's range of dates.
#[verifier::external_body]
fn chrono_timestamp_micros(days_from_ce: i32, secs: u32, nano: u32) -> (r: i64)
    requires
        valid_days_from_ce(days_from_ce as int),
        valid_time_of_day(secs as int, nano as int),
    ensures
        r == unix_micros(days_from_ce as int, secs as int, nano as int),
{
    let date = chrono::NaiveDate::from_num_days_from_ce_opt(days_from_ce).unwrap();
    let time = chrono::NaiveTime::from_num_seconds_from_midnight_opt(secs, nano).unwrap();
    date.and_time(time).and_utc().timestamp_micros()
}

/// Calls chrono's `DateTime::<Utc>::timestamp_nanos_opt` on the UTC date and
/// time given as in `chrono_timestamp`.  Trusted: the result is
/// `timestamp() * 1_000_000_000 + nanosecond` where that fits in an `i64`,
/// and `None` where it does not.
#[verifier::external_body]
fn chrono_timestamp_nanos_opt(days_from_ce: i32, secs: u32, nano: u32) -> (r: Option<i64>)
    requires
        valid_days_from_ce(days_from_ce as int),
        valid_time_of_day(secs as int, nano as int),
    ensures
        r == unix_nanos_opt(days_from_ce as int, secs as int, nano as int),
{
    let date = chrono::NaiveDate::from_num_days_from_ce_opt(days_from_ce).unwrap();
    let time = chrono::NaiveTime::from_num_seconds_from_midnight_opt(secs, nano).unwrap();
    date.and_time(time).and_utc().timestamp_nanos_opt()
}

} // verus!
