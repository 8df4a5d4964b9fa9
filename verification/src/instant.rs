//! An absolute point in time, counted in milliseconds from the UTC epoch.

use crate::calendar::{
    in_calendar_range, rfc2822_text, rfc3339_text, strftime_text, utc_year, write_formatted,
    write_rfc2822, write_rfc3339, year_of, EPOCH_DAY_NUMBER, MAX_MILLIS, MIN_MILLIS,
};
use vstd::prelude::*;

verus! {

/// Milliseconds in one second.
pub const MILLIS_PER_SECOND: i64 = 1_000;

/// Milliseconds in one minute.
pub const MILLIS_PER_MINUTE: i64 = 60_000;

/// Milliseconds in one hour.
pub const MILLIS_PER_HOUR: i64 = 3_600_000;

/// Milliseconds in one day.
pub const MILLIS_PER_DAY: i64 = 86_400_000;

/// Milliseconds in one week.
pub const MILLIS_PER_WEEK: i64 = 604_800_000;

/// The instant that a millisecond count stands for, if the calendar can
/// name it.
pub open spec fn admitted(millis: int) -> Option<int> {
    if in_calendar_range(millis) {
        Some(millis)
    } else {
        None
    }
}

/// The millisecond count of midnight UTC at the start of a numbered day.
pub open spec fn midnight_of_day(day_number: int) -> int {
    (day_number - EPOCH_DAY_NUMBER) * MILLIS_PER_DAY
}

/// The millisecond counts of the instants in an optional result.
pub open spec fn millis_of(found: Option<Instant>) -> Option<int> {
    match found {
        Some(at) => Some(at@),
        None => None,
    }
}

/// A point in time, normalised to UTC. No offset or zone is kept.
#[derive(Clone, Copy, Debug, PartialEq, Eq, Structural)]
pub struct Instant {
    millis: i64,
}

impl View for Instant {
    type V = int;

    /// Milliseconds since 1970-01-01T00:00:00Z; negative before it.
    closed spec fn view(&self) -> int {
        self.millis as int
    }
}

impl Instant {
    #[verifier::type_invariant]
    spec fn nameable(self) -> bool {
        in_calendar_range(self.millis as int)
    }

    /// The instant at a millisecond count, or nothing where the calendar
    /// cannot name it.
    pub fn from_millis(millis: i64) -> (found: Option<Instant>)
        ensures
            found is Some <==> in_calendar_range(millis as int),
            found matches Some(at) ==> at@ == millis,
    {
        if MIN_MILLIS <= millis && millis <= MAX_MILLIS {
            Some(Instant { millis })
        } else {
            None
        }
    }

    /// The instant at a whole number of seconds, or nothing where the
    /// calendar cannot name it.
    pub fn from_seconds(seconds: i64) -> (found: Option<Instant>)
        ensures
            found is Some <==> in_calendar_range(seconds * MILLIS_PER_SECOND),
            found matches Some(at) ==> at@ == seconds * MILLIS_PER_SECOND,
    {
        if MIN_MILLIS / MILLIS_PER_SECOND <= seconds && seconds <= MAX_MILLIS / MILLIS_PER_SECOND {
            Some(Instant { millis: seconds * MILLIS_PER_SECOND })
        } else {
            None
        }
    }

    /// Midnight UTC at the start of a numbered day, where 1 January of the
    /// year 1 is day 1.
    pub fn from_day_number(day_number: i32) -> (found: Option<Instant>)
        ensures
            found is Some <==> in_calendar_range(midnight_of_day(day_number as int)),
            found matches Some(at) ==> at@ == midnight_of_day(day_number as int),
    {
        let days: i64 = day_number as i64 - EPOCH_DAY_NUMBER;
        Instant::from_millis(days * MILLIS_PER_DAY)
    }

    /// 1970-01-01T00:00:00Z.
    pub fn epoch() -> (at: Instant)
        ensures
            at@ == 0,
    {
        Instant { millis: 0 }
    }

    /// Milliseconds since the epoch.
    pub fn millis(&self) -> (millis: i64)
        ensures
            millis == self@,
            in_calendar_range(millis as int),
    {
        proof {
            use_type_invariant(self);
        }
        self.millis
    }

    /// The UNIX timestamp: whole seconds since the epoch, rounded towards
    /// the past.
    pub fn unix_timestamp(&self) -> (seconds: i64)
        ensures
            seconds == self@ / (MILLIS_PER_SECOND as int),
    {
        let whole: i64 = self.millis / MILLIS_PER_SECOND;
        let rest: i64 = self.millis % MILLIS_PER_SECOND;
        if rest < 0 {
            whole - 1
        } else {
            whole
        }
    }

    /// Milliseconds elapsed since the most recent midnight UTC.
    pub fn millis_of_day(&self) -> (elapsed: i64)
        ensures
            elapsed == self@ % (MILLIS_PER_DAY as int),
            0 <= elapsed < MILLIS_PER_DAY,
    {
        let rest: i64 = self.millis % MILLIS_PER_DAY;
        if rest < 0 {
            rest + MILLIS_PER_DAY
        } else {
            rest
        }
    }

    /// The calendar year the instant falls in, in UTC.
    pub fn year(&self) -> (year: i32)
        ensures
            year == utc_year(self@),
    {
        year_of(self.millis())
    }

    /// The instant in RFC 3339 form, which is also ISO 8601.
    pub fn to_rfc3339(&self) -> (text: String)
        ensures
            text@ == rfc3339_text(self@),
    {
        write_rfc3339(self.millis())
    }

    /// The instant in RFC 2822 form. That form has four-digit years only,
    /// so outside the years 0 to 9999 there is none.
    pub fn to_rfc2822(&self) -> (text: Option<String>)
        ensures
            text is Some <==> 0 <= utc_year(self@) <= 9999,
            text matches Some(written) ==> written@ == rfc2822_text(self@),
    {
        let year: i32 = self.year();
        if 0 <= year && year <= 9999 {
            Some(write_rfc2822(self.millis()))
        } else {
            None
        }
    }

    /// The instant as a weekday, date, time and year, such as
    /// `Thu Mar  3 23:05:25 2005`.
    pub fn to_local_text(&self) -> (text: String)
        ensures
            text@ == strftime_text(self@, "%c"@),
    {
        write_formatted(self.millis(), "%c")
    }

    /// The instant as a date with the month's name and a twelve-hour time,
    /// such as ` 3-Mar-2005 11:05:25 PM`.
    pub fn to_english_text(&self) -> (text: String)
        ensures
            text@ == strftime_text(self@, "%v %r"@),
    {
        write_formatted(self.millis(), "%v %r")
    }

    /// The calendar date of the instant in UTC, as `YYYY-MM-DD`.
    pub fn to_date_text(&self) -> (text: String)
        ensures
            text@ == strftime_text(self@, "%F"@),
    {
        write_formatted(self.millis(), "%F")
    }

    /// The signed span from `earlier` to this instant, in milliseconds;
    /// negative where this instant comes first.
    pub fn millis_since(&self, earlier: &Instant) -> (span: i64)
        ensures
            span == self@ - earlier@,
    {
        proof {
            use_type_invariant(self);
            use_type_invariant(earlier);
        }
        self.millis - earlier.millis
    }
}

} // verus!
