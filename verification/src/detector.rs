//! Format detection: a fixed, ordered table of recognisers, of which the
//! first that accepts the whole input decides the instant.

use crate::calendar::{
    in_calendar_range, naive_date_day_number, naive_datetime_millis, offset_datetime_millis,
    parse_naive_date, parse_naive_datetime, parse_offset_datetime, parse_rfc2822, parse_rfc3339,
    rfc2822_millis, rfc3339_millis,
};
use crate::instant::{admitted, midnight_of_day, millis_of, Instant, MILLIS_PER_SECOND};
use crate::numeral::{
    decimal_text, digit_part, integer_text_value, law_decimal_text_reads_back,
    lemma_digits_of_length, pow10, read_integer, IntegerText,
};
use vstd::prelude::*;

verus! {

/// How many recognisers the table holds.
pub const RULE_COUNT: usize = 10;

/// A timestamp written in more digits than this counts milliseconds; one
/// written in this many or fewer counts seconds.
pub const SECONDS_DIGIT_LIMIT: usize = 12;

/// One way of reading a date and time from text.
#[derive(Clone, Copy, Debug, PartialEq, Eq, Structural)]
pub enum FormatRule {
    /// RFC 3339, the offset form of ISO 8601: `2020-01-01T10:00:00+01:00`.
    Rfc3339,
    /// RFC 2822: `Wed, 01 Jan 2020 10:00:00 +0100`.
    Rfc2822,
    /// Year, month name, day, time with optional fraction, offset:
    /// `2020 Jan 01 10:00:00.000 +0100`.
    NamedMonthWithOffset,
    /// Date and time to the second, read as UTC: `2020-01-01 10:00:00`.
    DateTimeSeconds,
    /// Date and time to the minute, read as UTC: `2020-01-01 10:00`.
    DateTimeMinutes,
    /// The date and time of a common log line, with offset:
    /// `01/Jan/2020:10:00:00 +0100`.
    LogLineWithOffset,
    /// The date and time of a common log line, read as UTC:
    /// `01/Jan/2020:10:00:00`.
    LogLine,
    /// Weekday, month name, day, time, year, read as UTC:
    /// `Wed Jan  1 10:00:00 2020`.
    WeekdayFirst,
    /// A date alone, standing for its midnight in UTC: `2020-01-01`.
    DateOnly,
    /// A UNIX timestamp in decimal digits, in seconds or milliseconds.
    UnixTimestamp,
}

/// The recognisers in the order in which they are tried.
pub open spec fn rule_order() -> Seq<FormatRule> {
    seq![
        FormatRule::Rfc3339,
        FormatRule::Rfc2822,
        FormatRule::NamedMonthWithOffset,
        FormatRule::DateTimeSeconds,
        FormatRule::DateTimeMinutes,
        FormatRule::LogLineWithOffset,
        FormatRule::LogLine,
        FormatRule::WeekdayFirst,
        FormatRule::DateOnly,
        FormatRule::UnixTimestamp,
    ]
}

/// The instant a millisecond count read by the calendar stands for, where
/// there is one.
pub open spec fn admitted_millis(read: Option<i64>) -> Option<int> {
    match read {
        Some(millis) => admitted(millis as int),
        None => None,
    }
}

/// Midnight UTC of a day read by the calendar, where there is one.
pub open spec fn admitted_day(read: Option<i32>) -> Option<int> {
    match read {
        Some(day_number) => admitted(midnight_of_day(day_number as int)),
        None => None,
    }
}

/// The instant of a timestamp written in `digit_count` digits: beyond
/// twelve digits the number counts milliseconds, else seconds.
pub open spec fn timestamp_instant(value: int, digit_count: int) -> Option<int> {
    if digit_count > SECONDS_DIGIT_LIMIT {
        admitted(value)
    } else {
        admitted(value * MILLIS_PER_SECOND)
    }
}

/// What the timestamp rule makes of a text.
pub open spec fn timestamp_outcome(text: Seq<char>) -> Option<int> {
    match integer_text_value(text) {
        Some(value) => timestamp_instant(value as int, digit_part(text).len() as int),
        None => None,
    }
}

/// The instant of a millisecond count that the calendar read, if it read
/// one.
pub fn admit_millis(read: Option<i64>) -> (found: Option<Instant>)
    ensures
        millis_of(found) == admitted_millis(read),
{
    match read {
        Some(millis) => Instant::from_millis(millis),
        None => None,
    }
}

/// Midnight UTC of the day that the calendar read, if it read one.
pub fn admit_day(read: Option<i32>) -> (found: Option<Instant>)
    ensures
        millis_of(found) == admitted_day(read),
{
    match read {
        Some(day_number) => Instant::from_day_number(day_number),
        None => None,
    }
}

/// The instant of a timestamp that was read from text.
pub fn instant_of_timestamp(read: IntegerText) -> (found: Option<Instant>)
    ensures
        millis_of(found) == timestamp_instant(read.value as int, read.digit_count as int),
{
    if read.digit_count > SECONDS_DIGIT_LIMIT {
        Instant::from_millis(read.value)
    } else {
        Instant::from_seconds(read.value)
    }
}

/// Reads a text that is nothing but a UNIX timestamp.
pub fn read_timestamp(text: &str) -> (found: Option<Instant>)
    ensures
        millis_of(found) == timestamp_outcome(text@),
{
    match read_integer(text) {
        Some(read) => instant_of_timestamp(read),
        None => None,
    }
}

impl FormatRule {
    /// The place of the rule in the order of trial, from zero.
    pub open spec fn rank(self) -> int {
        match self {
            FormatRule::Rfc3339 => 0,
            FormatRule::Rfc2822 => 1,
            FormatRule::NamedMonthWithOffset => 2,
            FormatRule::DateTimeSeconds => 3,
            FormatRule::DateTimeMinutes => 4,
            FormatRule::LogLineWithOffset => 5,
            FormatRule::LogLine => 6,
            FormatRule::WeekdayFirst => 7,
            FormatRule::DateOnly => 8,
            FormatRule::UnixTimestamp => 9,
        }
    }

    /// What the rule makes of a text: the instant it reads, in
    /// milliseconds from the epoch, or nothing where the text is not
    /// wholly in the rule's format.
    pub open spec fn outcome(self, text: Seq<char>) -> Option<int> {
        match self {
            FormatRule::Rfc3339 => admitted_millis(rfc3339_millis(text)),
            FormatRule::Rfc2822 => admitted_millis(rfc2822_millis(text)),
            FormatRule::NamedMonthWithOffset => admitted_millis(
                offset_datetime_millis(text, "%Y %b %d %H:%M:%S%.3f %z"@),
            ),
            FormatRule::DateTimeSeconds => admitted_millis(
                naive_datetime_millis(text, "%Y-%m-%d %H:%M:%S"@),
            ),
            FormatRule::DateTimeMinutes => admitted_millis(
                naive_datetime_millis(text, "%Y-%m-%d %H:%M"@),
            ),
            FormatRule::LogLineWithOffset => admitted_millis(
                offset_datetime_millis(text, "%e/%b/%Y:%T %z"@),
            ),
            FormatRule::LogLine => admitted_millis(naive_datetime_millis(text, "%e/%b/%Y:%T"@)),
            FormatRule::WeekdayFirst => admitted_millis(
                naive_datetime_millis(text, "%a %b %e %T %Y"@),
            ),
            FormatRule::DateOnly => admitted_day(naive_date_day_number(text, "%Y-%m-%d"@)),
            FormatRule::UnixTimestamp => timestamp_outcome(text),
        }
    }

    /// The place of the rule in the order of trial, from zero.
    pub fn position(&self) -> (rank: usize)
        ensures
            rank == self.rank(),
            rank < RULE_COUNT,
            rule_order()[rank as int] == *self,
    {
        match self {
            FormatRule::Rfc3339 => 0,
            FormatRule::Rfc2822 => 1,
            FormatRule::NamedMonthWithOffset => 2,
            FormatRule::DateTimeSeconds => 3,
            FormatRule::DateTimeMinutes => 4,
            FormatRule::LogLineWithOffset => 5,
            FormatRule::LogLine => 6,
            FormatRule::WeekdayFirst => 7,
            FormatRule::DateOnly => 8,
            FormatRule::UnixTimestamp => 9,
        }
    }

    /// Tries the rule on a text.
    pub fn apply(&self, text: &str) -> (found: Option<Instant>)
        ensures
            millis_of(found) == self.outcome(text@),
    {
        match self {
            FormatRule::Rfc3339 => admit_millis(parse_rfc3339(text)),
            FormatRule::Rfc2822 => admit_millis(parse_rfc2822(text)),
            FormatRule::NamedMonthWithOffset => admit_millis(
                parse_offset_datetime(text, "%Y %b %d %H:%M:%S%.3f %z"),
            ),
            FormatRule::DateTimeSeconds => admit_millis(
                parse_naive_datetime(text, "%Y-%m-%d %H:%M:%S"),
            ),
            FormatRule::DateTimeMinutes => admit_millis(
                parse_naive_datetime(text, "%Y-%m-%d %H:%M"),
            ),
            FormatRule::LogLineWithOffset => admit_millis(
                parse_offset_datetime(text, "%e/%b/%Y:%T %z"),
            ),
            FormatRule::LogLine => admit_millis(parse_naive_datetime(text, "%e/%b/%Y:%T")),
            FormatRule::WeekdayFirst => admit_millis(
                parse_naive_datetime(text, "%a %b %e %T %Y"),
            ),
            FormatRule::DateOnly => admit_day(parse_naive_date(text, "%Y-%m-%d")),
            FormatRule::UnixTimestamp => read_timestamp(text),
        }
    }
}

/// The table of recognisers, in the order in which they are tried.
pub fn rule_table() -> (table: [FormatRule; 10])
    ensures
        table@ == rule_order(),
{
    let table: [FormatRule; 10] = [
        FormatRule::Rfc3339,
        FormatRule::Rfc2822,
        FormatRule::NamedMonthWithOffset,
        FormatRule::DateTimeSeconds,
        FormatRule::DateTimeMinutes,
        FormatRule::LogLineWithOffset,
        FormatRule::LogLine,
        FormatRule::WeekdayFirst,
        FormatRule::DateOnly,
        FormatRule::UnixTimestamp,
    ];
    assert(table@ =~= rule_order());
    table
}

/// Whether no rule before place `upto` accepts the text.
pub open spec fn none_before(text: Seq<char>, upto: int) -> bool {
    forall|k: int| 0 <= k < upto && k < RULE_COUNT ==> (#[trigger] rule_order()[k]).outcome(text) is None
}

/// The place of the first rule that accepts the text, looking from place
/// `from` on.
pub open spec fn first_match_from(text: Seq<char>, from: int) -> Option<int>
    decreases RULE_COUNT - from,
{
    if from < 0 || from >= RULE_COUNT {
        None
    } else if rule_order()[from].outcome(text) is Some {
        Some(from)
    } else {
        first_match_from(text, from + 1)
    }
}

/// The place of the rule that decides the text: the first that accepts it.
pub open spec fn deciding_rule(text: Seq<char>) -> Option<int> {
    first_match_from(text, 0)
}

/// The instant a text is recognised as, in milliseconds from the epoch:
/// what the first accepting rule reads, or nothing where no rule accepts.
pub open spec fn recognised(text: Seq<char>) -> Option<int> {
    match deciding_rule(text) {
        Some(place) => rule_order()[place].outcome(text),
        None => None,
    }
}

/// A text that was recognised: the rule that accepted it and the instant
/// that rule read.
#[derive(Clone, Copy, Debug, PartialEq, Eq, Structural)]
pub struct Recognition {
    /// The first rule in the table that accepted the text.
    pub rule: FormatRule,
    /// The instant that rule read.
    pub instant: Instant,
}

/// Looking from `from` on finds the rule at `place` when that rule accepts
/// and none between the two does.
pub proof fn lemma_first_match_found(text: Seq<char>, from: int, place: int)
    requires
        0 <= from <= place < RULE_COUNT,
        rule_order()[place].outcome(text) is Some,
        forall|k: int| from <= k < place ==> (#[trigger] rule_order()[k]).outcome(text) is None,
    ensures
        first_match_from(text, from) == Some(place),
    decreases place - from,
{
    if from < place {
        lemma_first_match_found(text, from + 1, place);
    }
}

/// Looking from `from` on finds nothing when no rule from there on accepts.
pub proof fn lemma_first_match_absent(text: Seq<char>, from: int)
    requires
        0 <= from <= RULE_COUNT,
        forall|k: int| from <= k < RULE_COUNT ==> (#[trigger] rule_order()[k]).outcome(text) is None,
    ensures
        first_match_from(text, from) is None,
    decreases RULE_COUNT - from,
{
    if from < RULE_COUNT {
        lemma_first_match_absent(text, from + 1);
    }
}

/// What looking from `from` on finds is a rule that accepts, with none
/// between `from` and it that does; it finds nothing only where none
/// from there on accepts.
pub proof fn lemma_first_match_is_first(text: Seq<char>, from: int)
    requires
        0 <= from <= RULE_COUNT,
    ensures
        match first_match_from(text, from) {
            Some(place) => from <= place < RULE_COUNT
                && rule_order()[place].outcome(text) is Some
                && forall|k: int| from <= k < place ==> (#[trigger] rule_order()[k]).outcome(text) is None,
            None => forall|k: int| from <= k < RULE_COUNT ==> (#[trigger] rule_order()[k]).outcome(text) is None,
        },
    decreases RULE_COUNT - from,
{
    if from < RULE_COUNT && rule_order()[from].outcome(text) is None {
        lemma_first_match_is_first(text, from + 1);
    }
}

/// Tries the recognisers in order on a text and stops at the first that
/// accepts it.
pub fn detect(text: &str) -> (found: Option<Recognition>)
    ensures
        match found {
            Some(hit) => deciding_rule(text@) == Some(hit.rule.rank())
                && hit.rule.outcome(text@) == Some(hit.instant@)
                && none_before(text@, hit.rule.rank()),
            None => deciding_rule(text@) is None && none_before(text@, RULE_COUNT as int),
        },
        millis_of(
            match found {
                Some(hit) => Some(hit.instant),
                None => None,
            },
        ) == recognised(text@),
{
    let table: [FormatRule; 10] = rule_table();
    let mut place: usize = 0;
    while place < RULE_COUNT
        invariant
            place <= RULE_COUNT,
            table@ == rule_order(),
            none_before(text@, place as int),
        decreases RULE_COUNT - place,
    {
        let rule: FormatRule = table[place];
        match rule.apply(text) {
            Some(instant) => {
                proof {
                    assert(rule == rule_order()[place as int]);
                    assert(rule.rank() == place);
                    lemma_first_match_found(text@, 0, place as int);
                }
                return Some(Recognition { rule, instant });
            },
            None => {},
        }
        place += 1;
    }
    proof {
        lemma_first_match_absent(text@, 0);
    }
    None
}

/// Reads a date and time from a text in any of the known formats. The
/// text is taken as it is: trimming it is the caller's business.
pub fn parse_input(input_value: String) -> (found: Option<Instant>)
    ensures
        millis_of(found) == recognised(input_value@),
{
    match detect(input_value.as_str()) {
        Some(hit) => Some(hit.instant),
        None => None,
    }
}

/// Where two rules both accept a text, the rule that decides it is the
/// earlier of the two or one before it, never the later. Where the earlier
/// of the two is also the first to accept, the text is recognised as what
/// that rule reads.
pub proof fn law_earlier_rule_wins(text: Seq<char>, earlier: int, later: int)
    requires
        0 <= earlier < later < RULE_COUNT,
        rule_order()[earlier].outcome(text) is Some,
        rule_order()[later].outcome(text) is Some,
    ensures
        deciding_rule(text) is Some,
        deciding_rule(text)->0 <= earlier,
        deciding_rule(text) != Some(later),
        none_before(text, earlier) ==> deciding_rule(text) == Some(earlier) && recognised(text)
            == rule_order()[earlier].outcome(text),
{
    lemma_first_match_is_first(text, 0);
    if none_before(text, earlier) {
        lemma_first_match_found(text, 0, earlier);
    }
}

/// A text is unrecognised exactly when no rule accepts it, and a
/// recognised text is what the rule that decides it reads.
pub proof fn law_recognised_by_first_match(text: Seq<char>)
    ensures
        recognised(text) is None <==> none_before(text, RULE_COUNT as int),
        forall|place: int|
            0 <= place < RULE_COUNT && none_before(text, place) && (#[trigger] rule_order()[place]).outcome(
                text,
            ) is Some ==> recognised(text) == rule_order()[place].outcome(text),
{
    lemma_first_match_is_first(text, 0);
    assert forall|place: int|
        0 <= place < RULE_COUNT && none_before(text, place) && (#[trigger] rule_order()[place]).outcome(
            text,
        ) is Some implies recognised(text) == rule_order()[place].outcome(text) by {
        lemma_first_match_found(text, 0, place);
    }
}

/// The least number that takes thirteen digits to write.
pub const THIRTEEN_DIGITS: i64 = 1_000_000_000_000;

/// A timestamp written out and read back by the timestamp rule is the
/// instant it was written for: in whole seconds where they take at most
/// twelve digits, in milliseconds where those take more than twelve. Where
/// no rule before the timestamp rule accepts the digits, the text as a
/// whole is recognised as that instant.
pub proof fn law_timestamp_reads_back(at: Instant)
    requires
        in_calendar_range(at@),
    ensures
        at@ % (MILLIS_PER_SECOND as int) == 0 && -THIRTEEN_DIGITS < at@ / (MILLIS_PER_SECOND as int)
            < THIRTEEN_DIGITS ==> {
            let written: Seq<char> = decimal_text(at@ / (MILLIS_PER_SECOND as int));
            &&& FormatRule::UnixTimestamp.outcome(written) == Some(at@)
            &&& (none_before(written, 9) ==> recognised(written) == Some(at@))
        },
        at@ <= -THIRTEEN_DIGITS || THIRTEEN_DIGITS <= at@ ==> {
            let written: Seq<char> = decimal_text(at@);
            &&& FormatRule::UnixTimestamp.outcome(written) == Some(at@)
            &&& (none_before(written, 9) ==> recognised(written) == Some(at@))
        },
{
    assert(pow10(12) == THIRTEEN_DIGITS) by {
        reveal_with_fuel(pow10, 13);
    }
    let seconds: int = at@ / (MILLIS_PER_SECOND as int);
    if at@ % (MILLIS_PER_SECOND as int) == 0 && -THIRTEEN_DIGITS < seconds < THIRTEEN_DIGITS {
        let written: Seq<char> = decimal_text(seconds);
        law_decimal_text_reads_back(seconds as i64);
        lemma_digits_of_length(vstd::math::abs(seconds), 12);
        assert(FormatRule::UnixTimestamp.outcome(written) == Some(at@));
        if none_before(written, 9) {
            lemma_first_match_found(written, 0, 9);
        }
    }
    if at@ <= -THIRTEEN_DIGITS || THIRTEEN_DIGITS <= at@ {
        let written: Seq<char> = decimal_text(at@);
        law_decimal_text_reads_back(at@ as i64);
        lemma_digits_of_length(vstd::math::abs(at@), 12);
        assert(FormatRule::UnixTimestamp.outcome(written) == Some(at@));
        if none_before(written, 9) {
            lemma_first_match_found(written, 0, 9);
        }
    }
}

} // verus!
