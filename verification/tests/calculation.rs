use datecalc::calculator::{
    compute, describe, reference_or_now, DurationBreakdown, Elapsed, YearOffsets, YEAR_HOURS_E5,
    YEAR_MICRODAYS, YEAR_MICROWEEKS, YEAR_MINUTES_E4, YEAR_SECONDS,
};
use datecalc::calendar::{MAX_MILLIS, MIN_MILLIS};
use datecalc::detector::parse_input;
use datecalc::fixed::Decimal3;
use datecalc::instant::Instant;

/// 2020-01-01T10:00:00Z.
const TEN_O_CLOCK: i64 = 1_577_872_800_000;

/// 2019-01-01T00:00:00Z.
const YEAR_BEFORE: i64 = 1_546_300_800_000;

fn at(millis: i64) -> Instant {
    Instant::from_millis(millis).unwrap()
}

fn zero() -> DurationBreakdown {
    DurationBreakdown {
        years: Decimal3::new(0),
        weeks: 0,
        days: 0,
        hours: 0,
        minutes: 0,
        seconds: 0,
    }
}

fn negated(span: DurationBreakdown) -> DurationBreakdown {
    DurationBreakdown {
        years: Decimal3::new(-span.years.thousandths),
        weeks: -span.weeks,
        days: -span.days,
        hours: -span.hours,
        minutes: -span.minutes,
        seconds: -span.seconds,
    }
}

#[test]
fn year_lengths_are_the_mean_tropical_year() {
    assert_eq!(YEAR_MICRODAYS, 365_242_199);
    assert_eq!(YEAR_MICROWEEKS, 52_177_457);
    assert_eq!(YEAR_HOURS_E5, 876_581_277);
    assert_eq!(YEAR_MINUTES_E4, 5_259_487_662);
    assert_eq!(YEAR_SECONDS, 31_556_926);
}

#[test]
fn an_instant_against_itself_is_zero() {
    for millis in [0, TEN_O_CLOCK, -1, MIN_MILLIS, MAX_MILLIS] {
        let set = compute(at(millis), at(millis));
        assert_eq!(set.since_reference, zero());
        assert_eq!(set.since_reference.years.render(), "0.000");
    }
}

#[test]
fn an_earlier_subject_is_negative_in_every_unit() {
    let set = compute(at(YEAR_BEFORE), at(TEN_O_CLOCK));
    let span = set.since_reference;
    assert!(span.years.thousandths < 0);
    assert!(span.weeks < 0);
    assert!(span.days < 0);
    assert!(span.hours < 0);
    assert!(span.minutes < 0);
    assert!(span.seconds < 0);
}

#[test]
fn swapping_the_instants_negates_every_count() {
    let pairs = [
        (TEN_O_CLOCK, YEAR_BEFORE),
        (0, 1),
        (0, 999),
        (5, 1_005),
        (-86_399_999, 0),
        (MIN_MILLIS, MAX_MILLIS),
        (1_700_000_000_123, -62_167_219_200_000),
    ];
    for (a, b) in pairs {
        let forward = compute(at(a), at(b)).since_reference;
        let backward = compute(at(b), at(a)).since_reference;
        assert_eq!(backward, negated(forward));
    }
}

#[test]
fn a_count_is_negative_once_a_whole_unit_has_gone() {
    let just_short = DurationBreakdown::of_span(-999);
    assert_eq!(just_short, zero());
    let second = DurationBreakdown::of_span(-1_000);
    assert_eq!(second.seconds, -1);
    assert_eq!(second.minutes, 0);
    let day_short = DurationBreakdown::of_span(-86_399_999);
    assert_eq!(day_short.days, 0);
    assert_eq!(day_short.years, Decimal3::new(0));
    assert_eq!(day_short.hours, -23);
    let day = DurationBreakdown::of_span(-86_400_000);
    assert_eq!(day.days, -1);
    assert_eq!(day.years, Decimal3::new(-2));
    assert_eq!(day.weeks, 0);
    let week = DurationBreakdown::of_span(-604_800_000);
    assert_eq!(week.weeks, -1);
    assert_eq!(week.days, -7);
    assert_eq!(week.years, Decimal3::new(-19));
}

#[test]
fn epoch_relative_seconds_of_ten_seconds_past() {
    let set = compute(at(10_000), at(0));
    assert_eq!(set.since_epoch.seconds, 10);
    assert_eq!(set.renderings.unix_timestamp, 10);
    assert_eq!(set.renderings.rfc3339, "1970-01-01T00:00:10+00:00");
}

#[test]
fn breakdown_of_a_year_and_ten_hours() {
    let span = compute(at(TEN_O_CLOCK), at(YEAR_BEFORE)).since_reference;
    assert_eq!(span.seconds, 31_572_000);
    assert_eq!(span.minutes, 526_200);
    assert_eq!(span.hours, 8_770);
    assert_eq!(span.days, 365);
    assert_eq!(span.weeks, 52);
    assert_eq!(span.years, Decimal3::new(999));
    assert_eq!(span.years.render(), "0.999");
}

#[test]
fn counts_are_cut_off_not_rounded() {
    let span = DurationBreakdown::of_span(1_999);
    assert_eq!(span.seconds, 1);
    let span = DurationBreakdown::of_span(-1_999);
    assert_eq!(span.seconds, -1);
    let span = DurationBreakdown::of_span(119_999);
    assert_eq!(span.minutes, 1);
    let span = DurationBreakdown::of_span(13 * 86_400_000 + 86_399_999);
    assert_eq!(span.days, 13);
    assert_eq!(span.weeks, 1);
    assert_eq!(span.hours, 335);
    assert_eq!(span.years, Decimal3::new(35));
}

#[test]
fn years_follow_the_whole_days() {
    assert_eq!(DurationBreakdown::of_span(365 * 86_400_000).years, Decimal3::new(999));
    assert_eq!(DurationBreakdown::of_span(366 * 86_400_000).years, Decimal3::new(1_002));
    assert_eq!(DurationBreakdown::of_span(366 * 86_400_000 - 1).years, Decimal3::new(999));
    assert_eq!(DurationBreakdown::of_span(-366 * 86_400_000).years, Decimal3::new(-1_002));
    assert_eq!(
        DurationBreakdown::of_span(365_242_199 * 86_400_000).years,
        Decimal3::new(1_000_000_000)
    );
}

#[test]
fn breakdown_takes_any_span() {
    let widest = DurationBreakdown::of_span(i64::MAX);
    assert_eq!(widest.seconds, 9_223_372_036_854_775);
    assert_eq!(widest.minutes, 153_722_867_280_912);
    assert_eq!(widest.hours, 2_562_047_788_015);
    assert_eq!(widest.days, 106_751_991_167);
    assert_eq!(widest.weeks, 15_250_284_452);
    assert_eq!(widest.years, Decimal3::new(292_277_265_494));
    let narrowest = DurationBreakdown::of_span(i64::MIN);
    assert_eq!(narrowest.seconds, -9_223_372_036_854_775);
    assert_eq!(narrowest.days, -106_751_991_167);
    assert_eq!(narrowest.years, Decimal3::new(-292_277_265_494));
}

#[test]
fn breakdown_between_two_instants() {
    let span = DurationBreakdown::between(&at(TEN_O_CLOCK), &at(YEAR_BEFORE));
    assert_eq!(span, DurationBreakdown::of_span(TEN_O_CLOCK - YEAR_BEFORE));
    let span = DurationBreakdown::between(&at(MIN_MILLIS), &at(MAX_MILLIS));
    assert_eq!(span, DurationBreakdown::of_span(MIN_MILLIS - MAX_MILLIS));
}

#[test]
fn elapsed_is_read_to_three_places() {
    let stretch = Elapsed::of_span(5_400_000);
    assert_eq!(stretch.hours, Decimal3::new(1_500));
    assert_eq!(stretch.minutes, Decimal3::new(90_000));
    assert_eq!(stretch.seconds, 5_400);
    let stretch = Elapsed::of_span(1_500);
    assert_eq!(stretch.hours, Decimal3::new(0));
    assert_eq!(stretch.minutes, Decimal3::new(25));
    assert_eq!(stretch.seconds, 1);
    let stretch = Elapsed::of_span(7_999);
    assert_eq!(stretch.hours, Decimal3::new(2));
    assert_eq!(stretch.minutes, Decimal3::new(133));
    assert_eq!(stretch.seconds, 7);
}

#[test]
fn elapsed_keeps_the_sign() {
    let stretch = Elapsed::of_span(-5_400_000);
    assert_eq!(stretch.hours, Decimal3::new(-1_500));
    assert_eq!(stretch.minutes, Decimal3::new(-90_000));
    assert_eq!(stretch.seconds, -5_400);
    let stretch = Elapsed::of_span(-1);
    assert_eq!(stretch.hours, Decimal3::new(0));
    assert_eq!(stretch.minutes, Decimal3::new(0));
    assert_eq!(stretch.seconds, 0);
    let widest = Elapsed::of_span(i64::MAX);
    assert_eq!(widest.hours, Decimal3::new(2_562_047_788_015_215));
    assert_eq!(widest.minutes, Decimal3::new(153_722_867_280_912_930));
    let narrowest = Elapsed::of_span(i64::MIN);
    assert_eq!(narrowest.hours, Decimal3::new(-2_562_047_788_015_215));
    assert_eq!(narrowest.minutes, Decimal3::new(-153_722_867_280_912_930));
}

#[test]
fn since_epoch_is_a_plain_scaling() {
    let set = compute(at(TEN_O_CLOCK), at(0));
    assert_eq!(set.since_epoch.seconds, 1_577_872_800);
    assert_eq!(set.since_epoch.minutes, Decimal3::new(26_297_880_000));
    assert_eq!(set.since_epoch.hours, Decimal3::new(438_298_000));
    assert_eq!(set.since_epoch.hours.render(), "438298.000");
    let before = compute(at(-5_400_000), at(0));
    assert_eq!(before.since_epoch.seconds, -5_400);
    assert_eq!(before.since_epoch.hours.render(), "-1.500");
}

#[test]
fn since_midnight_is_the_time_of_day() {
    let set = compute(at(TEN_O_CLOCK), at(0));
    assert_eq!(set.since_midnight.seconds, 36_000);
    assert_eq!(set.since_midnight.minutes, Decimal3::new(600_000));
    assert_eq!(set.since_midnight.hours, Decimal3::new(10_000));
    let late = compute(at(-1), at(0));
    assert_eq!(late.since_midnight.seconds, 86_399);
    assert_eq!(late.since_midnight.minutes.render(), "1439.999");
    assert_eq!(late.since_midnight.hours.render(), "23.999");
    assert_eq!(late.renderings.date, "1969-12-31");
}

#[test]
fn year_number_is_scaled() {
    let offsets = YearOffsets::of_year(2020);
    assert_eq!(offsets.years, 2020);
    assert_eq!(offsets.weeks, Decimal3::new(105_398_463));
    assert_eq!(offsets.days, Decimal3::new(737_789_241));
    assert_eq!(offsets.hours, Decimal3::new(17_706_941_795));
    assert_eq!(offsets.minutes, Decimal3::new(1_062_416_507_724));
    assert_eq!(offsets.seconds, 63_744_990_520);
    assert_eq!(offsets.days.render(), "737789.241");
}

#[test]
fn year_zero_and_years_before_it() {
    let none = YearOffsets::of_year(0);
    assert_eq!(none.weeks, Decimal3::new(0));
    assert_eq!(none.seconds, 0);
    let one = YearOffsets::of_year(1);
    assert_eq!(one.weeks.render(), "52.177");
    assert_eq!(one.days.render(), "365.242");
    assert_eq!(one.hours.render(), "8765.812");
    assert_eq!(one.minutes.render(), "525948.766");
    assert_eq!(one.seconds, 31_556_926);
    let before = YearOffsets::of_year(-1);
    assert_eq!(before.weeks.render(), "-52.177");
    assert_eq!(before.days.render(), "-365.242");
    assert_eq!(before.hours.render(), "-8765.812");
    assert_eq!(before.minutes.render(), "-525948.766");
    assert_eq!(before.seconds, -31_556_926);
}

#[test]
fn any_year_number_can_be_scaled() {
    let far = YearOffsets::of_year(i32::MAX);
    assert_eq!(far.minutes, Decimal3::new(1_129_466_374_574_326_331));
    assert_eq!(far.seconds, 67_767_982_534_589_122);
    let back = YearOffsets::of_year(i32::MIN);
    assert_eq!(back.minutes, Decimal3::new(-1_129_466_375_100_275_097));
    assert_eq!(back.seconds, -67_767_982_566_146_048);
}

#[test]
fn everything_about_one_instant() {
    let set = compute(at(TEN_O_CLOCK), at(YEAR_BEFORE));
    assert_eq!(set.renderings.rfc3339, "2020-01-01T10:00:00+00:00");
    assert_eq!(set.renderings.rfc2822, Some("Wed, 1 Jan 2020 10:00:00 +0000".to_string()));
    assert_eq!(set.renderings.local, "Wed Jan  1 10:00:00 2020");
    assert_eq!(set.renderings.english, " 1-Jan-2020 10:00:00 AM");
    assert_eq!(set.renderings.unix_timestamp, 1_577_872_800);
    assert_eq!(set.renderings.date, "2020-01-01");
    assert_eq!(set.since_year_zero, YearOffsets::of_year(2020));
    assert_eq!(set.since_epoch, Elapsed::of_span(TEN_O_CLOCK));
    assert_eq!(set.since_midnight, Elapsed::of_span(36_000_000));
    assert_eq!(set.reference, "2019-01-01T00:00:00+00:00");
    assert_eq!(set.since_reference, DurationBreakdown::of_span(TEN_O_CLOCK - YEAR_BEFORE));
}

#[test]
fn renderings_do_not_depend_on_the_reference() {
    let one = compute(at(TEN_O_CLOCK), at(0));
    let other = compute(at(TEN_O_CLOCK), at(MAX_MILLIS));
    assert_eq!(one.renderings, other.renderings);
    assert_eq!(one.since_year_zero, other.since_year_zero);
    assert_eq!(one.since_epoch, other.since_epoch);
    assert_eq!(one.since_midnight, other.since_midnight);
    assert_ne!(one.since_reference, other.since_reference);
}

#[test]
fn the_ends_of_the_range_can_be_computed() {
    let set = compute(at(MIN_MILLIS), at(MAX_MILLIS));
    assert_eq!(set.renderings.rfc2822, None);
    assert_eq!(set.since_year_zero.years, -262_143);
    assert_eq!(set.since_midnight.seconds, 0);
    assert_eq!(set.since_reference.days, -191_491_528);
    let set = compute(at(MAX_MILLIS), at(MIN_MILLIS));
    assert_eq!(set.since_year_zero.years, 262_142);
    assert_eq!(set.since_midnight.seconds, 86_399);
    assert_eq!(set.since_reference.days, 191_491_528);
}

#[test]
fn reference_defaults_to_the_present() {
    let now = at(TEN_O_CLOCK);
    let given = at(YEAR_BEFORE);
    assert_eq!(reference_or_now(None, now), now);
    assert_eq!(reference_or_now(Some(given), now), given);
}

#[test]
fn nothing_is_shown_without_a_subject() {
    assert_eq!(describe(None, None, at(0)), None);
    assert_eq!(describe(None, Some(at(5)), at(0)), None);
}

#[test]
fn a_subject_is_described_against_the_reference_or_the_present() {
    let subject = at(TEN_O_CLOCK);
    let now = at(TEN_O_CLOCK + 3_600_000);
    let reference = at(YEAR_BEFORE);
    assert_eq!(describe(Some(subject), None, now), Some(compute(subject, now)));
    assert_eq!(
        describe(Some(subject), Some(reference), now),
        Some(compute(subject, reference))
    );
    let shown = describe(Some(subject), None, now).unwrap();
    assert_eq!(shown.since_reference.hours, -1);
    assert_eq!(shown.reference, "2020-01-01T11:00:00+00:00");
}

#[test]
fn unreadable_reference_text_falls_back_to_the_present() {
    let now = at(TEN_O_CLOCK);
    let subject = parse_input("2020-01-02".to_string());
    let reference = parse_input("tomorrow".to_string());
    let shown = describe(subject, reference, now).unwrap();
    assert_eq!(shown.since_reference.hours, 14);
    assert_eq!(shown.since_reference.days, 0);
    assert_eq!(describe(parse_input("soon".to_string()), reference, now), None);
}
