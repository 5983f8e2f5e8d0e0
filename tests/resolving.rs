use chrono::{Datelike, Duration, NaiveDate, NaiveDateTime};
use temps::calendar::{CivilDateTime, DateTime};
use temps::resolve::{place_local, resolve, LocalOffsets, Resolution};
use temps::test_dates::{feb_29_2024, fixed_datetime, jan_31_2024, june_15_2023};
use temps::{
    parse, parse_and_resolve_at, Direction, Language, RelativeTime, TempsError, TimeExpression,
    TimeUnit,
};

fn utc(civil: CivilDateTime) -> DateTime {
    DateTime { civil, offset_seconds: 0 }
}

fn base_time() -> DateTime {
    utc(fixed_datetime(2024, 3, 15, 10, 30, 0))
}

fn civil_of(r: Resolution) -> CivilDateTime {
    match r {
        Resolution::Exact(d) => d.civil,
        Resolution::Local(c) => c,
    }
}

fn naive(c: CivilDateTime) -> NaiveDateTime {
    NaiveDate::from_ymd_opt(c.year, c.month as u32, c.day as u32)
        .unwrap()
        .and_hms_nano_opt(c.hour as u32, c.minute as u32, c.second as u32, c.nanosecond)
        .unwrap()
}

fn resolve_text(input: &str, language: Language, now: &DateTime) -> CivilDateTime {
    civil_of(parse_and_resolve_at(input, language, now).unwrap())
}

fn check_offsets(language: Language, cases: Vec<(&str, Duration)>) {
    let now = base_time();
    let start = naive(now.civil);
    for (input, delta) in cases {
        let result = parse_and_resolve_at(input, language, &now).unwrap();
        match result {
            Resolution::Exact(d) => {
                assert_eq!(d.offset_seconds, 0, "Failed for input: {}", input);
                assert_eq!(naive(d.civil), start + delta, "Failed for input: {}", input);
            }
            Resolution::Local(_) => panic!("Failed for input: {}", input),
        }
    }
}

#[test]
fn all_tests_test_month_arithmetic_edge_cases() {
    let result = parse_and_resolve_at("in 1 month", Language::English, &base_time());
    assert!(result.is_ok());
}

#[test]
fn all_tests_test_leap_year_handling() {
    let result = parse_and_resolve_at("in 1 year", Language::English, &base_time());
    assert!(result.is_ok());

    let result = parse_and_resolve_at("1 year ago", Language::English, &base_time());
    assert!(result.is_ok());
}

#[test]
fn all_tests_test_multiple_years() {
    let result = parse_and_resolve_at("in 5 years", Language::English, &base_time());
    assert!(result.is_ok());

    let result = parse_and_resolve_at("10 years ago", Language::English, &base_time());
    assert!(result.is_ok());
}

#[test]
fn all_tests_test_multiple_months() {
    let result = parse_and_resolve_at("in 18 months", Language::English, &base_time());
    assert!(result.is_ok());

    let result = parse_and_resolve_at("6 months ago", Language::English, &base_time());
    assert!(result.is_ok());
}

#[test]
fn all_tests_test_date_arithmetic_consistency() {
    let now = base_time();
    let forward_month = TimeExpression::Relative(RelativeTime {
        amount: 1,
        unit: TimeUnit::Month,
        direction: Direction::Future,
    });
    let backward_month = TimeExpression::Relative(RelativeTime {
        amount: 1,
        unit: TimeUnit::Month,
        direction: Direction::Past,
    });

    let forward_result = resolve(&forward_month, &now);
    assert!(forward_result.is_ok());
    let backward_result = resolve(&backward_month, &now);
    assert!(backward_result.is_ok());

    if let (Ok(forward_time), Ok(backward_time)) = (forward_result, backward_result) {
        assert!(naive(civil_of(forward_time)) > naive(now.civil));
        assert!(naive(civil_of(backward_time)) < naive(now.civil));
    }

    let forward_year = TimeExpression::Relative(RelativeTime {
        amount: 1,
        unit: TimeUnit::Year,
        direction: Direction::Future,
    });
    assert!(resolve(&forward_year, &now).is_ok());
}

#[test]
fn all_tests_test_english_time_expressions_with_mock() {
    check_offsets(
        Language::English,
        vec![
            ("in 30 seconds", Duration::seconds(30)),
            ("45 seconds ago", -Duration::seconds(45)),
            ("in 5 minutes", Duration::minutes(5)),
            ("10 minutes ago", -Duration::minutes(10)),
            ("in a minute", Duration::minutes(1)),
            ("an hour ago", -Duration::hours(1)),
            ("in 2 hours", Duration::hours(2)),
            ("3 hours ago", -Duration::hours(3)),
            ("in 1 day", Duration::days(1)),
            ("2 days ago", -Duration::days(2)),
            ("in a day", Duration::days(1)),
            ("in 1 week", Duration::weeks(1)),
            ("2 weeks ago", -Duration::weeks(2)),
            ("in a week", Duration::weeks(1)),
        ],
    );
}

#[test]
fn all_tests_test_german_time_expressions_with_mock() {
    check_offsets(
        Language::German,
        vec![
            ("in 30 Sekunden", Duration::seconds(30)),
            ("vor 45 Sekunden", -Duration::seconds(45)),
            ("in 5 Minuten", Duration::minutes(5)),
            ("vor 10 Minuten", -Duration::minutes(10)),
            ("in einer Minute", Duration::minutes(1)),
            ("vor einer Stunde", -Duration::hours(1)),
            ("in 2 Stunden", Duration::hours(2)),
            ("vor 3 Stunden", -Duration::hours(3)),
            ("in 1 Tag", Duration::days(1)),
            ("vor 2 Tagen", -Duration::days(2)),
            ("in einem Tag", Duration::days(1)),
            ("in 1 Woche", Duration::weeks(1)),
            ("vor 2 Wochen", -Duration::weeks(2)),
            ("in einer Woche", Duration::weeks(1)),
        ],
    );
}

#[test]
fn all_tests_test_month_arithmetic_edge_cases_with_mock() {
    let result = resolve_text("in 1 month", Language::English, &utc(jan_31_2024()));
    assert_eq!(result.month, 2);
    assert_eq!(result.day, 29);
    assert_eq!(result.year, 2024);
}

#[test]
fn all_tests_test_month_arithmetic_non_leap_year() {
    let now = utc(fixed_datetime(2023, 1, 31, 10, 0, 0));
    let result = resolve_text("in einem Monat", Language::German, &now);
    assert_eq!(result.month, 2);
    assert_eq!(result.day, 28);
    assert_eq!(result.year, 2023);
}

#[test]
fn all_tests_test_year_arithmetic_with_leap_day() {
    let now = utc(fixed_datetime(2024, 2, 29, 12, 0, 0));
    let result = resolve_text("in 1 year", Language::English, &now);
    assert_eq!(result.month, 2);
    assert_eq!(result.day, 28);
    assert_eq!(result.year, 2025);
}

#[test]
fn all_tests_test_cross_year_boundary_calculations() {
    let now = utc(fixed_datetime(2023, 10, 15, 9, 0, 0));
    let result = resolve_text("in 6 months", Language::English, &now);
    assert_eq!(result.year, 2024);
    assert_eq!(result.month, 4);
    assert_eq!(result.day, 15);
}

#[test]
fn all_tests_test_complex_expressions_with_articles() {
    check_offsets(
        Language::English,
        vec![
            ("in a second", Duration::seconds(1)),
            ("in an hour", Duration::hours(1)),
            ("in one day", Duration::days(1)),
            ("a minute ago", -Duration::minutes(1)),
            ("an hour ago", -Duration::hours(1)),
            ("one week ago", -Duration::weeks(1)),
        ],
    );
}

#[test]
fn all_tests_test_german_articles_with_time_calculations() {
    check_offsets(
        Language::German,
        vec![
            ("in einer Sekunde", Duration::seconds(1)),
            ("in einer Minute", Duration::minutes(1)),
            ("in einer Stunde", Duration::hours(1)),
            ("in einem Tag", Duration::days(1)),
            ("in einer Woche", Duration::weeks(1)),
            ("vor einer Sekunde", -Duration::seconds(1)),
            ("vor einem Tag", -Duration::days(1)),
        ],
    );
}

#[test]
fn all_tests_test_now_expression_with_mock() {
    let now = base_time();
    let result = parse_and_resolve_at("now", Language::English, &now).unwrap();
    assert_eq!(result, Resolution::Exact(now));
    let result = parse_and_resolve_at("jetzt", Language::German, &now).unwrap();
    assert_eq!(result, Resolution::Exact(now));
}

#[test]
fn all_tests_test_iso_datetime_absolute_time() {
    let test_cases = vec![
        "2024-01-15T14:30:00Z",
        "2024-01-15T14:30:00+02:00",
        "2024-01-15T14:30:00.123Z",
    ];
    for input in test_cases {
        let result = parse_and_resolve_at(input, Language::English, &base_time());
        assert!(result.is_ok(), "Failed to parse absolute time: {}", input);
        let datetime = civil_of(result.unwrap());
        assert_eq!(datetime.year, 2024, "Year should be 2024");
        assert_eq!(datetime.month, 1, "Month should be January");
        assert_eq!(datetime.day, 15, "Day should be 15");
    }
}

#[test]
fn test_day_references_with_chrono() {
    let test_cases = vec![
        ("today", Language::English),
        ("yesterday", Language::English),
        ("tomorrow", Language::English),
        ("heute", Language::German),
        ("gestern", Language::German),
        ("morgen", Language::German),
    ];
    for (input, lang) in test_cases {
        let result = parse_and_resolve_at(input, lang, &base_time());
        assert!(result.is_ok(), "Failed to parse: {}", input);
        let datetime = civil_of(result.unwrap());
        assert_eq!(datetime.hour, 0);
        assert_eq!(datetime.minute, 0);
        assert_eq!(datetime.second, 0);
    }
}

#[test]
fn test_weekday_parsing_with_chrono() {
    let test_cases = vec![
        "monday", "tuesday", "wednesday", "thursday", "friday", "saturday", "sunday", "mon",
        "tue", "wed", "thu", "fri", "sat", "sun",
    ];
    for input in test_cases {
        let result = parse_and_resolve_at(input, Language::English, &base_time());
        assert!(result.is_ok(), "Failed to parse: {}", input);
        let datetime = civil_of(result.unwrap());
        assert_eq!(datetime.hour, 0);
        assert_eq!(datetime.minute, 0);
        assert_eq!(datetime.second, 0);
    }
}

#[test]
fn test_time_parsing_with_chrono() {
    let test_cases = vec![
        ("3:30 pm", 15, 30),
        ("10:15 am", 10, 15),
        ("14:30", 14, 30),
        ("9:00 PM", 21, 0),
        ("12:00 PM", 12, 0),
        ("12:00 AM", 0, 0),
    ];
    for (input, expected_hour, expected_minute) in test_cases {
        let result = parse_and_resolve_at(input, Language::English, &base_time());
        assert!(result.is_ok(), "Failed to parse: {}", input);
        let datetime = civil_of(result.unwrap());
        assert_eq!(datetime.hour, expected_hour);
        assert_eq!(datetime.minute, expected_minute);
    }
}

#[test]
fn test_day_at_time_with_chrono() {
    let datetime = resolve_text("tomorrow at 3:30 pm", Language::English, &base_time());
    assert_eq!(datetime.hour, 15);
    assert_eq!(datetime.minute, 30);

    let datetime = resolve_text("next monday at 9:00 am", Language::English, &base_time());
    assert_eq!(datetime.hour, 9);
    assert_eq!(datetime.minute, 0);
}

#[test]
fn test_date_parsing_with_chrono() {
    let test_cases = vec![
        ("15/03/2024", 2024, 3, 15),
        ("31-12-2025", 2025, 12, 31),
        ("01/01/2023", 2023, 1, 1),
    ];
    for (input, year, month, day) in test_cases {
        let datetime = resolve_text(input, Language::English, &base_time());
        assert_eq!(datetime.year, year);
        assert_eq!(datetime.month, month);
        assert_eq!(datetime.day, day);
        assert_eq!(datetime.hour, 0);
    }
}

#[test]
fn iso_with_fraction_resolves_in_both_languages() {
    for language in [Language::English, Language::German] {
        let r = parse_and_resolve_at("2024-01-15T14:30:00.123Z", language, &base_time()).unwrap();
        match r {
            Resolution::Exact(d) => {
                assert_eq!(d.offset_seconds, 0);
                assert_eq!(
                    (d.civil.year, d.civil.month, d.civil.day, d.civil.hour, d.civil.minute),
                    (2024, 1, 15, 14, 30)
                );
                assert_eq!(d.civil.second, 0);
                assert_eq!(d.civil.nanosecond, 123_000_000);
            }
            Resolution::Local(_) => panic!("expected an exact instant"),
        }
    }
}

#[test]
fn iso_offset_is_kept() {
    let r = parse_and_resolve_at("2024-01-15T14:30:00-05:00", Language::English, &base_time());
    match r.unwrap() {
        Resolution::Exact(d) => {
            assert_eq!(d.offset_seconds, -18000);
            assert_eq!(d.civil.hour, 14);
        }
        Resolution::Local(_) => panic!("expected an exact instant"),
    }
}

#[test]
fn iso_without_zone_is_local() {
    let r = parse_and_resolve_at("2024-01-15 14:30", Language::English, &base_time()).unwrap();
    assert_eq!(r, Resolution::Local(fixed_datetime(2024, 1, 15, 14, 30, 0)));
    let r = parse_and_resolve_at("2024-01-15", Language::English, &base_time()).unwrap();
    assert_eq!(r, Resolution::Local(fixed_datetime(2024, 1, 15, 0, 0, 0)));
}

#[test]
fn in_one_month_from_jan_31_non_leap() {
    let now = utc(fixed_datetime(2023, 1, 31, 10, 0, 0));
    let r = parse_and_resolve_at("in 1 month", Language::English, &now).unwrap();
    assert_eq!(r, Resolution::Local(fixed_datetime(2023, 2, 28, 10, 0, 0)));
}

#[test]
fn in_one_month_from_jan_31_leap_keeps_time() {
    let r = parse_and_resolve_at("in 1 month", Language::English, &utc(jan_31_2024())).unwrap();
    assert_eq!(r, Resolution::Local(fixed_datetime(2024, 2, 29, 10, 0, 0)));
}

#[test]
fn one_year_from_leap_day_clamps() {
    let r = parse_and_resolve_at("in 1 year", Language::English, &utc(feb_29_2024())).unwrap();
    assert_eq!(r, Resolution::Local(fixed_datetime(2025, 2, 28, 10, 0, 0)));
    let r = parse_and_resolve_at("1 year ago", Language::English, &utc(feb_29_2024())).unwrap();
    assert_eq!(r, Resolution::Local(fixed_datetime(2023, 2, 28, 10, 0, 0)));
}

#[test]
fn every_month_end_plus_one_month_is_valid() {
    for month in 1..=12u32 {
        for year in [2023, 2024] {
            let last = NaiveDate::from_ymd_opt(year, month, 1)
                .unwrap()
                .checked_add_months(chrono::Months::new(1))
                .unwrap()
                .pred_opt()
                .unwrap();
            let now = utc(fixed_datetime(year, month, last.day(), 8, 0, 0));
            let got = civil_of(parse_and_resolve_at("in 1 month", Language::English, &now).unwrap());
            let expected = last.checked_add_months(chrono::Months::new(1)).unwrap();
            assert_eq!(
                (got.year, got.month as u32, got.day as u32),
                (expected.year(), expected.month(), expected.day())
            );
        }
    }
}

#[test]
fn weekday_resolution_from_friday() {
    let friday = utc(fixed_datetime(2024, 3, 15, 9, 0, 0));
    let r = parse_and_resolve_at("next monday", Language::English, &friday).unwrap();
    assert_eq!(r, Resolution::Local(fixed_datetime(2024, 3, 18, 0, 0, 0)));
    let r = parse_and_resolve_at("monday", Language::English, &friday).unwrap();
    assert_eq!(r, Resolution::Local(fixed_datetime(2024, 3, 18, 0, 0, 0)));
    let r = parse_and_resolve_at("last friday", Language::English, &friday).unwrap();
    assert_eq!(r, Resolution::Local(fixed_datetime(2024, 3, 8, 0, 0, 0)));
    let r = parse_and_resolve_at("friday", Language::English, &friday).unwrap();
    assert_eq!(r, Resolution::Local(fixed_datetime(2024, 3, 15, 0, 0, 0)));
}

#[test]
fn weekday_resolution_on_monday() {
    let monday = utc(fixed_datetime(2024, 3, 18, 9, 0, 0));
    let r = parse_and_resolve_at("monday", Language::English, &monday).unwrap();
    assert_eq!(r, Resolution::Local(fixed_datetime(2024, 3, 18, 0, 0, 0)));
    let r = parse_and_resolve_at("next monday", Language::English, &monday).unwrap();
    assert_eq!(r, Resolution::Local(fixed_datetime(2024, 3, 25, 0, 0, 0)));
    let r = parse_and_resolve_at("last monday", Language::English, &monday).unwrap();
    assert_eq!(r, Resolution::Local(fixed_datetime(2024, 3, 11, 0, 0, 0)));
    let r = parse_and_resolve_at("nächsten Montag", Language::German, &monday).unwrap();
    assert_eq!(r, Resolution::Local(fixed_datetime(2024, 3, 25, 0, 0, 0)));
}

#[test]
fn day_shortcuts_cross_month_boundaries() {
    let now = utc(fixed_datetime(2024, 3, 1, 9, 0, 0));
    let r = parse_and_resolve_at("yesterday", Language::English, &now).unwrap();
    assert_eq!(r, Resolution::Local(fixed_datetime(2024, 2, 29, 0, 0, 0)));
    let now = utc(fixed_datetime(2023, 12, 31, 23, 0, 0));
    let r = parse_and_resolve_at("tomorrow at 8:15 am", Language::English, &now).unwrap();
    assert_eq!(r, Resolution::Local(fixed_datetime(2024, 1, 1, 8, 15, 0)));
}

#[test]
fn time_today_uses_now_date() {
    let r = parse_and_resolve_at("23:59", Language::German, &utc(june_15_2023())).unwrap();
    assert_eq!(r, Resolution::Local(fixed_datetime(2023, 6, 15, 23, 59, 0)));
}

#[test]
fn invalid_date_is_reported_at_resolution() {
    let expr = parse("32/13/2024", Language::English).unwrap();
    assert_eq!(
        resolve(&expr, &base_time()),
        Err(TempsError::invalid_date(2024, 13, 32))
    );
    assert_eq!(
        parse_and_resolve_at("31.02.2023", Language::German, &base_time()),
        Err(TempsError::invalid_date(2023, 2, 31))
    );
}

#[test]
fn invalid_time_is_reported_at_resolution() {
    let expr = parse("25:00:00", Language::English).unwrap();
    assert_eq!(resolve(&expr, &base_time()), Err(TempsError::invalid_time(25, 0, 0)));
    assert_eq!(
        parse_and_resolve_at("13:00 pm", Language::English, &base_time()),
        Err(TempsError::invalid_time(13, 0, 0))
    );
    assert_eq!(
        parse_and_resolve_at("2024-01-15T10:61:00Z", Language::English, &base_time()),
        Err(TempsError::invalid_time(10, 61, 0))
    );
}

#[test]
fn negative_offset_with_minutes() {
    let r = parse_and_resolve_at("2024-01-15T14:30:00-05:30", Language::English, &base_time());
    match r.unwrap() {
        Resolution::Exact(d) => {
            assert_eq!(d.offset_seconds, -19800);
            let utc_view = d.with_offset(0).unwrap();
            assert_eq!(utc_view.civil, fixed_datetime(2024, 1, 15, 20, 0, 0));
        }
        Resolution::Local(_) => panic!("expected an exact instant"),
    }
}

#[test]
fn invalid_offset_is_reported() {
    assert_eq!(
        parse_and_resolve_at("2024-01-15T10:00:00+99:00", Language::English, &base_time()),
        Err(TempsError::invalid_timezone_offset(99, 0))
    );
}

#[test]
fn month_and_year_amount_errors() {
    let negative = TimeExpression::Relative(RelativeTime {
        amount: -1,
        unit: TimeUnit::Month,
        direction: Direction::Future,
    });
    assert_eq!(
        resolve(&negative, &base_time()),
        Err(TempsError::date_calculation("Month amount must be a positive number"))
    );
    let huge = TimeExpression::Relative(RelativeTime {
        amount: i64::MAX,
        unit: TimeUnit::Year,
        direction: Direction::Future,
    });
    assert_eq!(
        resolve(&huge, &base_time()),
        Err(TempsError::arithmetic_overflow("Year calculation overflow"))
    );
    let negative_years = TimeExpression::Relative(RelativeTime {
        amount: -2,
        unit: TimeUnit::Year,
        direction: Direction::Past,
    });
    assert_eq!(
        resolve(&negative_years, &base_time()),
        Err(TempsError::date_calculation("Year amount must be a positive number"))
    );
    assert_eq!(
        parse_and_resolve_at("in 300000 years", Language::English, &base_time()),
        Err(TempsError::date_calculation("Date calculation resulted in invalid date"))
    );
    let far = civil_of(parse_and_resolve_at("in 10000 years", Language::English, &base_time()).unwrap());
    assert_eq!((far.year, far.month, far.day), (12024, 3, 15));
    assert_eq!(
        parse_and_resolve_at("in 9223372036854775807 weeks", Language::English, &base_time()),
        Err(TempsError::date_calculation("Date calculation resulted in invalid date"))
    );
}

#[test]
fn parse_errors_flow_through_resolution() {
    let err = parse_and_resolve_at("now!", Language::English, &base_time()).unwrap_err();
    match err {
        TempsError::ParseError { input, position, .. } => {
            assert_eq!(input, "now!");
            assert_eq!(position, Some(3));
        }
        _ => panic!("expected a parse error"),
    }
}

#[test]
fn resolution_is_deterministic() {
    let now = base_time();
    for input in ["in 5 minutes", "next friday at 9:00 pm", "2024-01-15", "in 2 months"] {
        assert_eq!(
            parse_and_resolve_at(input, Language::English, &now),
            parse_and_resolve_at(input, Language::English, &now)
        );
    }
}

#[test]
fn placing_local_readings() {
    let c = fixed_datetime(2024, 3, 31, 2, 30, 0);
    assert_eq!(
        place_local(&c, LocalOffsets::Single(3600)),
        Ok(DateTime { civil: c, offset_seconds: 3600 })
    );
    assert_eq!(
        place_local(&c, LocalOffsets::Gap),
        Err(TempsError::ambiguous_time("Ambiguous or invalid local time"))
    );
    assert_eq!(
        place_local(&c, LocalOffsets::Fold(3600, 7200)),
        Err(TempsError::ambiguous_time("Ambiguous or invalid local time"))
    );
}

#[test]
fn offset_conversion_keeps_the_instant() {
    let d = utc(fixed_datetime(2024, 1, 1, 1, 0, 0));
    let shifted = d.with_offset(-7200).unwrap();
    assert_eq!(shifted.civil, fixed_datetime(2023, 12, 31, 23, 0, 0));
    assert_eq!(naive(shifted.civil).and_utc().timestamp() + 7200, naive(d.civil).and_utc().timestamp());
}

fn jiff_civil(c: CivilDateTime) -> jiff::civil::DateTime {
    jiff::civil::DateTime::new(
        c.year as i16,
        c.month as i8,
        c.day as i8,
        c.hour as i8,
        c.minute as i8,
        c.second as i8,
        c.nanosecond as i32,
    )
    .unwrap()
}

#[test]
fn test_month_year_calculations_with_spans() {
    let now = utc(fixed_datetime(2024, 1, 15, 12, 0, 0));
    let base_time = jiff_civil(now.civil);
    let span = jiff::Span::new;
    let cases = vec![
        ("in 1 month", base_time.checked_add(span().months(1)).unwrap()),
        ("in 3 months", base_time.checked_add(span().months(3)).unwrap()),
        ("1 month ago", base_time.checked_sub(span().months(1)).unwrap()),
        ("in einem Monat", base_time.checked_add(span().months(1)).unwrap()),
        ("vor einem Monat", base_time.checked_sub(span().months(1)).unwrap()),
        ("in 1 year", base_time.checked_add(span().years(1)).unwrap()),
        ("in 2 years", base_time.checked_add(span().years(2)).unwrap()),
        ("1 year ago", base_time.checked_sub(span().years(1)).unwrap()),
        ("in einem Jahr", base_time.checked_add(span().years(1)).unwrap()),
        ("vor einem Jahr", base_time.checked_sub(span().years(1)).unwrap()),
    ];
    for (input, expected) in cases {
        let lang = if input.contains("vor") || input.contains("einem") {
            Language::German
        } else {
            Language::English
        };
        let result = resolve_text(input, lang, &now);
        assert_eq!(jiff_civil(result), expected, "Failed for input: {}", input);
    }
}

#[test]
fn test_day_references_with_jiff() {
    let now = utc(june_15_2023());
    let cases = vec![
        ("today", Language::English, 15),
        ("yesterday", Language::English, 14),
        ("tomorrow", Language::English, 16),
        ("heute", Language::German, 15),
        ("gestern", Language::German, 14),
        ("morgen", Language::German, 16),
    ];
    for (input, lang, day) in cases {
        let datetime = resolve_text(input, lang, &now);
        assert_eq!((datetime.month, datetime.day), (6, day), "Failed to parse: {}", input);
        assert_eq!((datetime.hour, datetime.minute, datetime.second), (0, 0, 0));
    }
}

#[test]
fn test_weekday_parsing_with_jiff() {
    let now = utc(june_15_2023());
    let cases = vec![
        ("monday", 19),
        ("tuesday", 20),
        ("wednesday", 21),
        ("thursday", 15),
        ("friday", 16),
        ("saturday", 17),
        ("sunday", 18),
        ("mon", 19),
        ("tue", 20),
        ("wed", 21),
        ("thu", 15),
        ("fri", 16),
        ("sat", 17),
        ("sun", 18),
    ];
    for (input, day) in cases {
        let datetime = resolve_text(input, Language::English, &now);
        assert_eq!(datetime.day, day, "Failed to parse: {}", input);
        assert_eq!((datetime.hour, datetime.minute, datetime.second), (0, 0, 0));
    }
}

#[test]
fn test_time_parsing_with_jiff() {
    let cases = vec![
        ("3:30 pm", 15, 30),
        ("10:15 am", 10, 15),
        ("14:30", 14, 30),
        ("9:00 PM", 21, 0),
        ("12:00 PM", 12, 0),
        ("12:00 AM", 0, 0),
    ];
    for (input, hour, minute) in cases {
        let datetime = resolve_text(input, Language::English, &utc(june_15_2023()));
        assert_eq!((datetime.hour, datetime.minute), (hour, minute), "Failed to parse: {}", input);
        assert_eq!((datetime.year, datetime.month, datetime.day), (2023, 6, 15));
    }
}

#[test]
fn test_day_at_time_with_jiff() {
    let now = utc(june_15_2023());
    let datetime = resolve_text("tomorrow at 3:30 pm", Language::English, &now);
    assert_eq!((datetime.day, datetime.hour, datetime.minute), (16, 15, 30));
    let datetime = resolve_text("next monday at 9:00 am", Language::English, &now);
    assert_eq!((datetime.day, datetime.hour, datetime.minute), (19, 9, 0));
}

#[test]
fn test_date_parsing_with_jiff() {
    let cases = vec![
        ("15/03/2024", 2024, 3, 15),
        ("31-12-2025", 2025, 12, 31),
        ("01/01/2023", 2023, 1, 1),
    ];
    for (input, year, month, day) in cases {
        let datetime = resolve_text(input, Language::English, &base_time());
        assert_eq!((datetime.year, datetime.month, datetime.day), (year, month, day));
        assert_eq!(datetime.hour, 0);
    }
}
