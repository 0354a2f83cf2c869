use stock_predictor::timeunit::get_time;
use stock_predictor::timeunit::time_range;
use stock_predictor::timeunit::TimeError;
use stock_predictor::timeunit::TimeUnit;
use stock_predictor::timeunit::MAXIMUM_TIME;
use stock_predictor::timeunit::MINIMUM_TIME;

#[test]
fn get_number_returns_the_bare_number() {
    assert_eq!(TimeUnit::Seconds(5).get_number(), 5);
    assert_eq!(TimeUnit::Minutes(4).get_number(), 4);
    assert_eq!(TimeUnit::Hours(3).get_number(), 3);
    assert_eq!(TimeUnit::Days(2).get_number(), 2);
    assert_eq!(TimeUnit::Weeks(1).get_number(), 1);
    assert_eq!(TimeUnit::Months(6).get_number(), 6);
    assert_eq!(TimeUnit::Years(10).get_number(), 10);
}

#[test]
fn as_seconds_scales_each_unit() {
    assert_eq!(TimeUnit::Seconds(90).as_seconds(), 90);
    assert_eq!(TimeUnit::Minutes(2).as_seconds(), 120);
    assert_eq!(TimeUnit::Hours(1).as_seconds(), 3600);
    assert_eq!(TimeUnit::Days(2).as_seconds(), 172_800);
    assert_eq!(TimeUnit::Weeks(1).as_seconds(), 604_800);
    assert_eq!(TimeUnit::Months(1).as_seconds(), 2_592_000);
    assert_eq!(TimeUnit::Years(10).as_seconds(), 315_360_000);
}

#[test]
fn as_seconds_of_zero_is_zero() {
    assert_eq!(TimeUnit::Years(0).as_seconds(), 0);
}

#[test]
fn checked_seconds_matches_as_seconds_when_the_span_fits() {
    assert_eq!(TimeUnit::Minutes(2).checked_seconds(), Some(120));
    assert_eq!(TimeUnit::Years(10).checked_seconds(), Some(315_360_000));
    assert_eq!(TimeUnit::Seconds(u64::MAX).checked_seconds(), Some(u64::MAX));
}

#[test]
fn checked_seconds_refuses_a_span_that_overflows() {
    assert_eq!(TimeUnit::Minutes(u64::MAX / 60 + 1).checked_seconds(), None);
    assert_eq!(TimeUnit::Years(u64::MAX).checked_seconds(), None);
}

#[test]
fn describe_names_the_unit() {
    assert_eq!(TimeUnit::Seconds(90).describe(), "90 seconds");
    assert_eq!(TimeUnit::Minutes(0).describe(), "0 minutes");
    assert_eq!(TimeUnit::Hours(24).describe(), "24 hours");
    assert_eq!(TimeUnit::Days(365).describe(), "365 days");
    assert_eq!(TimeUnit::Weeks(52).describe(), "52 weeks");
    assert_eq!(TimeUnit::Months(12).describe(), "12 months");
    assert_eq!(TimeUnit::Years(10).describe(), "10 years");
}

#[test]
fn time_range_spans_exactly_the_requested_seconds() {
    assert_eq!(time_range(100, 30), Ok((70, 100)));
    assert_eq!(time_range(1_700_000_000, 1), Ok((1_699_999_999, 1_700_000_000)));
}

#[test]
fn time_range_accepts_a_window_that_starts_at_the_epoch() {
    assert_eq!(time_range(30, 30), Ok((0, 30)));
}

#[test]
fn time_range_rejects_a_zero_span() {
    assert_eq!(time_range(100, 0), Err(TimeError::OutOfRange));
}

#[test]
fn time_range_rejects_a_span_above_the_maximum() {
    assert_eq!(time_range(100, MAXIMUM_TIME + 1), Err(TimeError::OutOfRange));
}

#[test]
fn time_range_rejects_a_window_that_reaches_before_the_epoch() {
    assert_eq!(time_range(29, 30), Err(TimeError::InFuture));
    assert_eq!(time_range(-5, 1), Err(TimeError::InFuture));
}

#[test]
fn get_time_rejects_the_bounds_violations() {
    assert_eq!(get_time(0), Err(TimeError::OutOfRange));
    assert_eq!(get_time(MAXIMUM_TIME + 1), Err(TimeError::OutOfRange));
}

#[test]
fn get_time_returns_a_window_of_the_requested_length() {
    let (start, end) = get_time(3600).expect("an hour ago lies after the epoch");
    assert_eq!(end - start, 3600);
    assert!(start >= 0);
}

#[test]
fn the_time_bounds_are_one_second_and_the_largest_signed_count() {
    assert_eq!(MINIMUM_TIME, 1);
    assert_eq!(MAXIMUM_TIME, i64::MAX as u64);
}

#[test]
fn time_error_messages_are_the_reported_texts() {
    assert_eq!(
        TimeError::OutOfRange.message(),
        "The number of seconds must be between 1 and 9223372036854775807!"
    );
    assert_eq!(TimeError::InFuture.message(), "The time cannot be in the future!");
}
