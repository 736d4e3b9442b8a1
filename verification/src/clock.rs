//! Calendar time: an instant is a count of seconds since 1970-01-01 00:00:00 UTC.
//!
//! The calendar itself is chrono's. The functions here say what it returns
//! for the fields that the engines read: hour, minute and day of the week.
//! The present instant is read from the system clock, and a clock that is
//! set before 1970 reads as the start of 1970.

use vstd::prelude::*;

verus! {

/// The earliest instant that the calendar functions accept.
pub const MIN_TIMESTAMP: i64 = -8_000_000_000_000;

/// The latest instant that the calendar functions accept.
pub const MAX_TIMESTAMP: i64 = 8_000_000_000_000;

/// A day of the week.
#[derive(Debug, Clone, Copy, PartialEq, Eq, Structural)]
pub enum Weekday {
    Mon,
    Tue,
    Wed,
    Thu,
    Fri,
    Sat,
    Sun,
}

/// The instant lies within the span that the calendar functions accept.
pub open spec fn valid_timestamp(ts: int) -> bool {
    MIN_TIMESTAMP <= ts <= MAX_TIMESTAMP
}

/// Hour of the day, 0 to 23, of the instant `ts` in UTC.
pub open spec fn hour_of(ts: int) -> int {
    (ts % 86_400) / 3_600
}

/// Minute of the hour, 0 to 59, of the instant `ts` in UTC.
pub open spec fn minute_of(ts: int) -> int {
    (ts % 3_600) / 60
}

/// Days since Monday, 0 to 6, of the instant `ts` in UTC. 1970-01-01 was a Thursday.
pub open spec fn weekday_index_of(ts: int) -> int {
    (ts / 86_400 + 3) % 7
}

/// The day whose distance from Monday is `index`.
pub open spec fn weekday_at(index: int) -> Weekday {
    if index == 0 {
        Weekday::Mon
    } else if index == 1 {
        Weekday::Tue
    } else if index == 2 {
        Weekday::Wed
    } else if index == 3 {
        Weekday::Thu
    } else if index == 4 {
        Weekday::Fri
    } else if index == 5 {
        Weekday::Sat
    } else {
        Weekday::Sun
    }
}

/// The day of the week of the instant `ts` in UTC.
pub open spec fn weekday_of(ts: int) -> Weekday {
    weekday_at(weekday_index_of(ts))
}

impl Weekday {
    /// Days since Monday: 0 for Monday, 6 for Sunday.
    pub open spec fn spec_index(self) -> int {
        match self {
            Weekday::Mon => 0,
            Weekday::Tue => 1,
            Weekday::Wed => 2,
            Weekday::Thu => 3,
            Weekday::Fri => 4,
            Weekday::Sat => 5,
            Weekday::Sun => 6,
        }
    }

    /// The day's English three-letter name.
    pub open spec fn spec_short_name(self) -> Seq<char> {
        match self {
            Weekday::Mon => "Mon"@,
            Weekday::Tue => "Tue"@,
            Weekday::Wed => "Wed"@,
            Weekday::Thu => "Thu"@,
            Weekday::Fri => "Fri"@,
            Weekday::Sat => "Sat"@,
            Weekday::Sun => "Sun"@,
        }
    }

    /// The day numbered `n`, counting Monday as 1; none outside 1 to 7.
    pub open spec fn spec_from_number(n: int) -> Option<Weekday> {
        if 1 <= n <= 7 {
            Some(weekday_at(n - 1))
        } else {
            None
        }
    }

    /// Days since Monday: 0 for Monday, 6 for Sunday.
    pub fn index(self) -> (r: u8)
        ensures
            r == self.spec_index(),
    {
        match self {
            Weekday::Mon => 0,
            Weekday::Tue => 1,
            Weekday::Wed => 2,
            Weekday::Thu => 3,
            Weekday::Fri => 4,
            Weekday::Sat => 5,
            Weekday::Sun => 6,
        }
    }

    /// The day's number, counting Monday as 1 and Sunday as 7.
    pub fn number_from_monday(self) -> (r: u8)
        ensures
            r == self.spec_index() + 1,
    {
        self.index() + 1
    }

    /// The day numbered `n`, counting Monday as 1; none outside 1 to 7.
    pub fn from_number(n: u8) -> (r: Option<Weekday>)
        ensures
            r == Weekday::spec_from_number(n as int),
    {
        match n {
            1 => Some(Weekday::Mon),
            2 => Some(Weekday::Tue),
            3 => Some(Weekday::Wed),
            4 => Some(Weekday::Thu),
            5 => Some(Weekday::Fri),
            6 => Some(Weekday::Sat),
            7 => Some(Weekday::Sun),
            _ => None,
        }
    }

    /// The day's English three-letter name.
    pub fn short_name(self) -> (r: &'static str)
        ensures
            r@ == self.spec_short_name(),
    {
        match self {
            Weekday::Mon => "Mon",
            Weekday::Tue => "Tue",
            Weekday::Wed => "Wed",
            Weekday::Thu => "Thu",
            Weekday::Fri => "Fri",
            Weekday::Sat => "Sat",
            Weekday::Sun => "Sun",
        }
    }
}

/// Numbering a day from Monday and reading the number back gives the day.
pub proof fn lemma_weekday_number_round_trip(day: Weekday)
    ensures
        Weekday::spec_from_number(day.spec_index() + 1) == Some(day),
{
}

/// The system clock's type, `std::time::SystemTime`: a reading is carried
/// from one call to the next and never looked into.
#[verifier::external_type_specification]
#[verifier::external_body]
pub struct ExSystemTime(std::time::SystemTime);

/// `std::time::SystemTime::now`: what the system clock reads. Nothing is
/// claimed of the reading.
#[verifier::external_body]
fn clock_reading() -> std::time::SystemTime {
    std::time::SystemTime::now()
}

/// `std::time::SystemTime::duration_since` with `std::time::UNIX_EPOCH`: the
/// time from the start of 1970 to the reading, or nothing where the reading
/// lies before 1970. Nothing is claimed of the span.
#[verifier::external_body]
fn since_epoch(reading: &std::time::SystemTime) -> Option<std::time::Duration> {
    reading.duration_since(std::time::UNIX_EPOCH).ok()
}

/// `std::time::Duration::as_secs`: the whole seconds in a span of time.
/// Nothing is claimed of the number.
#[verifier::external_body]
fn whole_seconds(span: &std::time::Duration) -> u64 {
    span.as_secs()
}

/// The present instant in whole seconds since 1970, as the system clock
/// reads: the start of 1970 where the clock reads earlier, the end of the
/// calendar where it reads later.
pub fn unix_now() -> (ts: i64)
    ensures
        0 <= ts <= MAX_TIMESTAMP,
{
    let reading = clock_reading();
    match since_epoch(&reading) {
        Some(span) => instant_of(Some(whole_seconds(&span))),
        None => instant_of(None),
    }
}

/// The instant that a count of seconds since 1970 stands for: the end of
/// the calendar where the count lies beyond it, and the start of 1970 where
/// there is no count, which is how a clock set before 1970 reads.
pub open spec fn spec_instant_of(elapsed: Option<u64>) -> i64 {
    match elapsed {
        Some(seconds) => if seconds > MAX_TIMESTAMP {
            MAX_TIMESTAMP
        } else {
            seconds as i64
        },
        None => 0,
    }
}

/// The instant that a count of seconds since 1970 stands for, kept within
/// the calendar; the start of 1970 where there is no count.
pub fn instant_of(elapsed: Option<u64>) -> (ts: i64)
    ensures
        ts == spec_instant_of(elapsed),
        0 <= ts <= MAX_TIMESTAMP,
{
    match elapsed {
        Some(seconds) => if seconds > MAX_TIMESTAMP as u64 {
            MAX_TIMESTAMP
        } else {
            seconds as i64
        },
        None => 0,
    }
}

/// The hour, minute and day of the week of an instant, in UTC.
#[derive(Debug, Clone, Copy, PartialEq, Eq, Structural)]
pub struct WallClock {
    pub hour: u8,
    pub minute: u8,
    pub weekday: Weekday,
}

impl WallClock {
    /// The calendar fields of the instant `ts`.
    pub open spec fn spec_at(ts: int) -> WallClock {
        WallClock {
            hour: hour_of(ts) as u8,
            minute: minute_of(ts) as u8,
            weekday: weekday_of(ts),
        }
    }

    /// Minutes since midnight.
    pub open spec fn spec_minute_of_day(self) -> int {
        self.hour as int * 60 + self.minute as int
    }

    /// The calendar fields of the instant `ts`.
    pub fn at(ts: i64) -> (r: WallClock)
        requires
            valid_timestamp(ts as int),
        ensures
            r == WallClock::spec_at(ts as int),
            r.hour < 24,
            r.minute < 60,
    {
        utc_clock(ts)
    }

    /// The calendar fields of the present instant.
    pub fn now() -> (r: WallClock)
        ensures
            r.hour < 24,
            r.minute < 60,
    {
        WallClock::at(unix_now())
    }

    /// Minutes since midnight.
    pub fn minute_of_day(self) -> (r: u32)
        ensures
            r == self.spec_minute_of_day(),
    {
        self.hour as u32 * 60 + self.minute as u32
    }
}

/// `chrono::DateTime::from_timestamp`, read by `Timelike::hour`,
/// `Timelike::minute` and `Datelike::weekday`. chrono splits the count into
/// days and seconds of the day by Euclidean division; the hour is the
/// seconds of the day over 3600, the minute the minutes of the day modulo
/// 60, and the day of the week that of the proleptic Gregorian date, in
/// which day 0 of the count, 1970-01-01, is a Thursday.
#[verifier::external_body]
pub(crate) fn utc_clock(ts: i64) -> (clock: WallClock)
    requires
        valid_timestamp(ts as int),
    ensures
        clock == WallClock::spec_at(ts as int),
{
    let instant = chrono::DateTime::from_timestamp(ts, 0).unwrap();
    WallClock {
        hour: chrono::Timelike::hour(&instant) as u8,
        minute: chrono::Timelike::minute(&instant) as u8,
        weekday: match chrono::Datelike::weekday(&instant) {
            chrono::Weekday::Mon => Weekday::Mon,
            chrono::Weekday::Tue => Weekday::Tue,
            chrono::Weekday::Wed => Weekday::Wed,
            chrono::Weekday::Thu => Weekday::Thu,
            chrono::Weekday::Fri => Weekday::Fri,
            chrono::Weekday::Sat => Weekday::Sat,
            chrono::Weekday::Sun => Weekday::Sun,
        },
    }
}

} // verus!
