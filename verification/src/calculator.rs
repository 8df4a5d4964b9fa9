//! What is derived from a recognised instant: its renderings, where it
//! stands against the year zero, the epoch and its own midnight, and how
//! far it lies from a reference instant.

use crate::calendar::{in_calendar_range, rfc2822_text, rfc3339_text, strftime_text, utc_year};
use crate::fixed::{
    lemma_trunc_div_negates, lemma_trunc_div_sign, thousandths_of, trunc_div, Decimal3,
};
use crate::instant::{
    Instant, MILLIS_PER_DAY, MILLIS_PER_HOUR, MILLIS_PER_MINUTE, MILLIS_PER_SECOND,
    MILLIS_PER_WEEK,
};
use vstd::prelude::*;

verus! {

/// The mean tropical year in millionths of a day: 365.242199 days.
pub const YEAR_MICRODAYS: i64 = 365_242_199;

/// The mean tropical year in millionths of a week: 52.177457 weeks.
pub const YEAR_MICROWEEKS: i64 = 52_177_457;

/// The mean tropical year in hundred-thousandths of an hour:
/// 8765.81277 hours.
pub const YEAR_HOURS_E5: i64 = 876_581_277;

/// The mean tropical year in ten-thousandths of a minute:
/// 525948.7662 minutes.
pub const YEAR_MINUTES_E4: i64 = 5_259_487_662;

/// The mean tropical year in seconds.
pub const YEAR_SECONDS: i64 = 31_556_926;

/// The signed distance between two instants, counted once in each unit.
/// The six counts are six readings of one span, not parts that add up.
#[derive(Clone, Copy, Debug, PartialEq, Eq, Structural)]
pub struct DurationBreakdown {
    /// Mean tropical years in the whole days of the span, to three places.
    pub years: Decimal3,
    /// Whole weeks in the span.
    pub weeks: i64,
    /// Whole days in the span.
    pub days: i64,
    /// Whole hours in the span.
    pub hours: i64,
    /// Whole minutes in the span.
    pub minutes: i64,
    /// Whole seconds in the span.
    pub seconds: i64,
}

/// A stretch of time read in hours, minutes and seconds. The three counts
/// are three readings of one stretch, not parts that add up.
#[derive(Clone, Copy, Debug, PartialEq, Eq, Structural)]
pub struct Elapsed {
    /// The stretch in hours, to three places.
    pub hours: Decimal3,
    /// The stretch in minutes, to three places.
    pub minutes: Decimal3,
    /// Whole seconds in the stretch.
    pub seconds: i64,
}

/// A calendar year's number read as a stretch of that many mean tropical
/// years. This scales the bare number; it measures no elapsed time.
#[derive(Clone, Copy, Debug, PartialEq, Eq, Structural)]
pub struct YearOffsets {
    /// The calendar year.
    pub years: i32,
    /// That many years in weeks, to three places.
    pub weeks: Decimal3,
    /// That many years in days, to three places.
    pub days: Decimal3,
    /// That many years in hours, to three places.
    pub hours: Decimal3,
    /// That many years in minutes, to three places.
    pub minutes: Decimal3,
    /// That many years in seconds.
    pub seconds: i64,
}

/// An instant written out in each form the library offers.
#[derive(Clone, Debug, PartialEq, Eq)]
pub struct Renderings {
    /// RFC 3339, which is also ISO 8601.
    pub rfc3339: String,
    /// RFC 2822; missing outside the years 0 to 9999.
    pub rfc2822: Option<String>,
    /// Weekday, date, time and year.
    pub local: String,
    /// Date with the month's name, and a twelve-hour time.
    pub english: String,
    /// The UNIX timestamp in whole seconds.
    pub unix_timestamp: i64,
    /// The calendar date in UTC, `YYYY-MM-DD`.
    pub date: String,
}

/// Everything derived from one subject instant and one reference instant.
#[derive(Clone, Debug, PartialEq, Eq)]
pub struct ResultSet {
    /// The subject written out.
    pub renderings: Renderings,
    /// The subject's year number scaled to other units.
    pub since_year_zero: YearOffsets,
    /// From the epoch to the subject.
    pub since_epoch: Elapsed,
    /// From the subject's own midnight in UTC to the subject.
    pub since_midnight: Elapsed,
    /// The reference instant in RFC 3339 form.
    pub reference: String,
    /// From the reference to the subject; negative where the subject
    /// comes first.
    pub since_reference: DurationBreakdown,
}

/// The breakdown of a span of milliseconds. Every count is taken from the
/// span itself and cut off towards zero; the years are the whole days
/// divided by the length of the mean tropical year.
pub open spec fn breakdown_of(span: int) -> DurationBreakdown {
    DurationBreakdown {
        years: Decimal3 {
            thousandths: thousandths_of(
                trunc_div(span, MILLIS_PER_DAY as int) * 1_000_000,
                YEAR_MICRODAYS as int,
            ) as i64,
        },
        weeks: trunc_div(span, MILLIS_PER_WEEK as int) as i64,
        days: trunc_div(span, MILLIS_PER_DAY as int) as i64,
        hours: trunc_div(span, MILLIS_PER_HOUR as int) as i64,
        minutes: trunc_div(span, MILLIS_PER_MINUTE as int) as i64,
        seconds: trunc_div(span, MILLIS_PER_SECOND as int) as i64,
    }
}

/// A stretch of milliseconds read in hours, minutes and seconds, each cut
/// off towards zero at its own precision.
pub open spec fn elapsed_of(span: int) -> Elapsed {
    Elapsed {
        hours: Decimal3 { thousandths: thousandths_of(span, MILLIS_PER_HOUR as int) as i64 },
        minutes: Decimal3 { thousandths: thousandths_of(span, MILLIS_PER_MINUTE as int) as i64 },
        seconds: trunc_div(span, MILLIS_PER_SECOND as int) as i64,
    }
}

/// A year number scaled by the length of the mean tropical year in each
/// unit, cut off towards zero at the third decimal place.
pub open spec fn year_offsets_of(year: int) -> YearOffsets {
    YearOffsets {
        years: year as i32,
        weeks: Decimal3 { thousandths: thousandths_of(year * YEAR_MICROWEEKS, 1_000_000) as i64 },
        days: Decimal3 { thousandths: thousandths_of(year * YEAR_MICRODAYS, 1_000_000) as i64 },
        hours: Decimal3 { thousandths: thousandths_of(year * YEAR_HOURS_E5, 100_000) as i64 },
        minutes: Decimal3 { thousandths: thousandths_of(year * YEAR_MINUTES_E4, 10_000) as i64 },
        seconds: (year * YEAR_SECONDS) as i64,
    }
}

impl DurationBreakdown {
    /// The same breakdown with the sign of every count changed.
    pub open spec fn negated(self) -> DurationBreakdown {
        DurationBreakdown {
            years: Decimal3 { thousandths: (-self.years.thousandths) as i64 },
            weeks: (-self.weeks) as i64,
            days: (-self.days) as i64,
            hours: (-self.hours) as i64,
            minutes: (-self.minutes) as i64,
            seconds: (-self.seconds) as i64,
        }
    }

    /// Whether every count is zero.
    pub open spec fn is_zero(self) -> bool {
        self.years.thousandths == 0 && self.weeks == 0 && self.days == 0 && self.hours == 0
            && self.minutes == 0 && self.seconds == 0
    }

    /// Whether every count is below zero.
    pub open spec fn is_negative(self) -> bool {
        self.years.thousandths < 0 && self.weeks < 0 && self.days < 0 && self.hours < 0
            && self.minutes < 0 && self.seconds < 0
    }

    /// The breakdown of a span of milliseconds.
    pub fn of_span(span: i64) -> (breakdown: DurationBreakdown)
        ensures
            breakdown == breakdown_of(span as int),
    {
        let days: i64 = span / MILLIS_PER_DAY;
        DurationBreakdown {
            years: Decimal3::quotient(days as i128 * 1_000_000, YEAR_MICRODAYS as i128),
            weeks: span / MILLIS_PER_WEEK,
            days,
            hours: span / MILLIS_PER_HOUR,
            minutes: span / MILLIS_PER_MINUTE,
            seconds: span / MILLIS_PER_SECOND,
        }
    }

    /// The breakdown of the span from a reference instant to a subject.
    pub fn between(subject: &Instant, reference: &Instant) -> (breakdown: DurationBreakdown)
        ensures
            breakdown == breakdown_of(subject@ - reference@),
    {
        DurationBreakdown::of_span(subject.millis_since(reference))
    }
}

impl Elapsed {
    /// A stretch of milliseconds read in hours, minutes and seconds.
    pub fn of_span(span: i64) -> (elapsed: Elapsed)
        ensures
            elapsed == elapsed_of(span as int),
    {
        Elapsed {
            hours: Decimal3::quotient(span as i128, MILLIS_PER_HOUR as i128),
            minutes: Decimal3::quotient(span as i128, MILLIS_PER_MINUTE as i128),
            seconds: span / MILLIS_PER_SECOND,
        }
    }
}

impl YearOffsets {
    /// A year number scaled to weeks, days, hours, minutes and seconds.
    pub fn of_year(year: i32) -> (offsets: YearOffsets)
        ensures
            offsets == year_offsets_of(year as int),
    {
        let wide: i128 = year as i128;
        assert(YEAR_MICROWEEKS as i128 == 52_177_457 && YEAR_MICRODAYS as i128 == 365_242_199
            && YEAR_HOURS_E5 as i128 == 876_581_277 && YEAR_MINUTES_E4 as i128 == 5_259_487_662);
        YearOffsets {
            years: year,
            weeks: Decimal3::quotient(wide * (YEAR_MICROWEEKS as i128), 1_000_000),
            days: Decimal3::quotient(wide * (YEAR_MICRODAYS as i128), 1_000_000),
            hours: Decimal3::quotient(wide * (YEAR_HOURS_E5 as i128), 100_000),
            minutes: Decimal3::quotient(wide * (YEAR_MINUTES_E4 as i128), 10_000),
            seconds: (year as i64) * YEAR_SECONDS,
        }
    }
}

impl Renderings {
    /// Writes an instant out in every form.
    pub fn of(subject: &Instant) -> (written: Renderings)
        ensures
            written.rfc3339@ == rfc3339_text(subject@),
            written.rfc2822 is Some <==> 0 <= utc_year(subject@) <= 9999,
            written.rfc2822 matches Some(text) ==> text@ == rfc2822_text(subject@),
            written.local@ == strftime_text(subject@, "%c"@),
            written.english@ == strftime_text(subject@, "%v %r"@),
            written.unix_timestamp == subject@ / (MILLIS_PER_SECOND as int),
            written.date@ == strftime_text(subject@, "%F"@),
    {
        Renderings {
            rfc3339: subject.to_rfc3339(),
            rfc2822: subject.to_rfc2822(),
            local: subject.to_local_text(),
            english: subject.to_english_text(),
            unix_timestamp: subject.unix_timestamp(),
            date: subject.to_date_text(),
        }
    }
}

impl ResultSet {
    /// Whether this is what is derived from a subject and a reference,
    /// each given in milliseconds from the epoch. The renderings, the year
    /// offsets and the two elapsed times depend on the subject alone.
    pub open spec fn describes(self, subject: int, reference: int) -> bool {
        &&& self.renderings.rfc3339@ == rfc3339_text(subject)
        &&& (self.renderings.rfc2822 is Some <==> 0 <= utc_year(subject) <= 9999)
        &&& (self.renderings.rfc2822 matches Some(text) ==> text@ == rfc2822_text(subject))
        &&& self.renderings.local@ == strftime_text(subject, "%c"@)
        &&& self.renderings.english@ == strftime_text(subject, "%v %r"@)
        &&& self.renderings.unix_timestamp == subject / (MILLIS_PER_SECOND as int)
        &&& self.renderings.date@ == strftime_text(subject, "%F"@)
        &&& self.since_year_zero == year_offsets_of(utc_year(subject))
        &&& self.since_epoch == elapsed_of(subject)
        &&& self.since_midnight == elapsed_of(subject % (MILLIS_PER_DAY as int))
        &&& self.reference@ == rfc3339_text(reference)
        &&& self.since_reference == breakdown_of(subject - reference)
    }
}

/// Derives every value from a subject instant and the reference instant
/// it is measured against.
pub fn compute(subject: Instant, reference: Instant) -> (set: ResultSet)
    ensures
        set.describes(subject@, reference@),
{
    ResultSet {
        renderings: Renderings::of(&subject),
        since_year_zero: YearOffsets::of_year(subject.year()),
        since_epoch: Elapsed::of_span(subject.millis()),
        since_midnight: Elapsed::of_span(subject.millis_of_day()),
        reference: reference.to_rfc3339(),
        since_reference: DurationBreakdown::between(&subject, &reference),
    }
}

/// The reference to measure against: the one given, or the present moment
/// where none was given.
pub fn reference_or_now(reference: Option<Instant>, now: Instant) -> (chosen: Instant)
    ensures
        chosen == (match reference {
            Some(given) => given,
            None => now,
        }),
{
    match reference {
        Some(given) => given,
        None => now,
    }
}

/// Derives every value for a subject that may be missing. Without a
/// subject there is nothing to show; without a reference the present
/// moment stands in for it.
pub fn describe(subject: Option<Instant>, reference: Option<Instant>, now: Instant) -> (shown:
    Option<ResultSet>)
    ensures
        shown is Some <==> subject is Some,
        shown matches Some(set) ==> set.describes(
            subject->0@,
            match reference {
                Some(given) => given@,
                None => now@,
            },
        ),
{
    match subject {
        Some(about) => Some(compute(about, reference_or_now(reference, now))),
        None => None,
    }
}

/// An instant measured against itself is no distance away in any unit.
pub proof fn law_same_instant_is_zero(at: Instant, set: ResultSet)
    requires
        set.describes(at@, at@),
    ensures
        set.since_reference.is_zero(),
{
}

/// Measuring the other way round changes the sign of every count and
/// nothing else.
pub proof fn law_swap_negates(
    subject: Instant,
    reference: Instant,
    forward: ResultSet,
    backward: ResultSet,
)
    requires
        in_calendar_range(subject@),
        in_calendar_range(reference@),
        forward.describes(subject@, reference@),
        backward.describes(reference@, subject@),
    ensures
        backward.since_reference == forward.since_reference.negated(),
{
    let span: int = subject@ - reference@;
    lemma_trunc_div_negates(span, MILLIS_PER_SECOND as int);
    lemma_trunc_div_negates(span, MILLIS_PER_MINUTE as int);
    lemma_trunc_div_negates(span, MILLIS_PER_HOUR as int);
    lemma_trunc_div_negates(span, MILLIS_PER_DAY as int);
    lemma_trunc_div_negates(span, MILLIS_PER_WEEK as int);
    let days: int = trunc_div(span, MILLIS_PER_DAY as int);
    lemma_trunc_div_negates(days * 1_000_000 * 1000, YEAR_MICRODAYS as int);
}

/// A subject that comes before the reference is never a positive distance
/// away, and each count is below zero exactly when the subject is at
/// least one whole unit early; the years follow the whole days.
pub proof fn law_earlier_subject_counts(subject: Instant, reference: Instant, set: ResultSet)
    requires
        in_calendar_range(subject@),
        in_calendar_range(reference@),
        set.describes(subject@, reference@),
        subject@ < reference@,
    ensures
        ({
            let early: int = reference@ - subject@;
            let counted: DurationBreakdown = set.since_reference;
            &&& counted.seconds <= 0 && counted.minutes <= 0 && counted.hours <= 0
            &&& counted.days <= 0 && counted.weeks <= 0 && counted.years.thousandths <= 0
            &&& (counted.seconds < 0 <==> early >= MILLIS_PER_SECOND)
            &&& (counted.minutes < 0 <==> early >= MILLIS_PER_MINUTE)
            &&& (counted.hours < 0 <==> early >= MILLIS_PER_HOUR)
            &&& (counted.days < 0 <==> early >= MILLIS_PER_DAY)
            &&& (counted.weeks < 0 <==> early >= MILLIS_PER_WEEK)
            &&& (counted.years.thousandths < 0 <==> early >= MILLIS_PER_DAY)
        }),
{
    let span: int = subject@ - reference@;
    lemma_trunc_div_sign(span, MILLIS_PER_SECOND as int);
    lemma_trunc_div_sign(span, MILLIS_PER_MINUTE as int);
    lemma_trunc_div_sign(span, MILLIS_PER_HOUR as int);
    lemma_trunc_div_sign(span, MILLIS_PER_DAY as int);
    lemma_trunc_div_sign(span, MILLIS_PER_WEEK as int);
    let days: int = trunc_div(span, MILLIS_PER_DAY as int);
    lemma_trunc_div_sign(days * 1_000_000 * 1000, YEAR_MICRODAYS as int);
}

/// A subject that comes a week or more before the reference is a negative
/// distance away in every unit.
pub proof fn law_earlier_subject_is_negative(subject: Instant, reference: Instant, set: ResultSet)
    requires
        in_calendar_range(subject@),
        in_calendar_range(reference@),
        set.describes(subject@, reference@),
        subject@ < reference@,
        reference@ - subject@ >= MILLIS_PER_WEEK,
    ensures
        set.since_reference.is_negative(),
{
    law_earlier_subject_counts(subject, reference, set);
}

} // verus!
