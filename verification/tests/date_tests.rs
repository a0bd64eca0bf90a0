use journai::date::Date;
use journai::date::MAX_YEAR;
use journai::date::MIN_YEAR;

fn date(year: i32, month: u32, day: u32) -> Date {
    Date::from_ymd(year, month, day).expect("the day exists")
}

#[test]
fn a_day_that_exists_is_made_with_its_numbers() {
    let made = date(2024, 3, 1);
    assert_eq!(made.year(), 2024);
    assert_eq!(made.month(), 3);
    assert_eq!(made.day(), 1);
}

#[test]
fn days_that_do_not_exist_are_refused() {
    assert_eq!(Date::from_ymd(2023, 2, 29), None);
    assert_eq!(Date::from_ymd(1900, 2, 29), None);
    assert_eq!(Date::from_ymd(2023, 4, 31), None);
    assert_eq!(Date::from_ymd(2024, 0, 10), None);
    assert_eq!(Date::from_ymd(2024, 13, 10), None);
    assert_eq!(Date::from_ymd(2024, 1, 0), None);
    assert_eq!(Date::from_ymd(2024, 1, 32), None);
}

#[test]
fn leap_days_exist_in_leap_years() {
    assert!(Date::from_ymd(2024, 2, 29).is_some());
    assert!(Date::from_ymd(2000, 2, 29).is_some());
    assert!(Date::from_ymd(-4, 2, 29).is_some());
}

#[test]
fn every_month_has_its_last_day() {
    let lengths: [u32; 12] = [31, 28, 31, 30, 31, 30, 31, 31, 30, 31, 30, 31];
    let mut month: u32 = 1;
    while month <= 12 {
        let last = lengths[(month - 1) as usize];
        assert!(Date::from_ymd(2023, month, last).is_some());
        assert_eq!(Date::from_ymd(2023, month, last + 1), None);
        month += 1;
    }
}

#[test]
fn the_years_end_where_the_constants_say() {
    assert_eq!(MIN_YEAR, -262143);
    assert_eq!(MAX_YEAR, 262142);
    assert!(Date::from_ymd(MIN_YEAR, 1, 1).is_some());
    assert!(Date::from_ymd(MAX_YEAR, 12, 31).is_some());
    assert_eq!(Date::from_ymd(MIN_YEAR - 1, 12, 31), None);
    assert_eq!(Date::from_ymd(MAX_YEAR + 1, 1, 1), None);
    assert_eq!(Date::from_ymd(400000, 1, 1), None);
    assert_eq!(Date::from_ymd(-400000, 1, 1), None);
}

#[test]
fn a_date_is_written_with_hyphens_and_leading_zeros() {
    assert_eq!(date(2024, 3, 1).to_text(), "2024-03-01");
    assert_eq!(date(2015, 9, 5).to_text(), "2015-09-05");
    assert_eq!(date(0, 1, 1).to_text(), "0000-01-01");
    assert_eq!(date(987, 12, 31).to_text(), "0987-12-31");
    assert_eq!(date(9999, 12, 31).to_text(), "9999-12-31");
}

#[test]
fn years_outside_four_digits_are_written_with_a_sign() {
    assert_eq!(date(-1, 1, 1).to_text(), "-0001-01-01");
    assert_eq!(date(-9999, 6, 15).to_text(), "-9999-06-15");
    assert_eq!(date(10000, 12, 31).to_text(), "+10000-12-31");
    assert_eq!(date(-12345, 2, 3).to_text(), "-12345-02-03");
    assert_eq!(date(MAX_YEAR, 12, 31).to_text(), "+262142-12-31");
    assert_eq!(date(MIN_YEAR, 1, 1).to_text(), "-262143-01-01");
}

#[test]
fn a_written_date_is_read() {
    assert_eq!(Date::parse("2024-03-01"), Some(date(2024, 3, 1)));
    assert_eq!(Date::parse("2015-09-18"), Some(date(2015, 9, 18)));
    assert_eq!(Date::parse("+12345-6-7"), Some(date(12345, 6, 7)));
}

#[test]
fn what_is_no_date_is_not_read() {
    assert_eq!(Date::parse("foo"), None);
    assert_eq!(Date::parse(""), None);
    assert_eq!(Date::parse("2023-02-29"), None);
    assert_eq!(Date::parse("2024-13-01"), None);
    assert_eq!(Date::parse("2024-03-01T10:00:00"), None);
    assert_eq!(Date::parse("01/03/2024"), None);
}

#[test]
fn what_is_written_is_read_back() {
    let days = [date(2024, 3, 1), date(0, 1, 1), date(-1, 12, 31), date(10000, 1, 1)];
    for day in days {
        assert_eq!(Date::parse(&day.to_text()), Some(day));
    }
}

#[test]
fn dates_compare_by_their_numbers() {
    assert_eq!(date(2024, 3, 1), date(2024, 3, 1));
    assert_ne!(date(2024, 3, 1), date(2024, 3, 2));
    assert_ne!(date(2024, 3, 1), date(2024, 4, 1));
    assert_ne!(date(2024, 3, 1), date(2023, 3, 1));
}

fn sample_years() -> Vec<i32> {
    let mut years: Vec<i32> = Vec::new();
    years.extend(-420..=420);
    years.extend(1590..=2410);
    years.extend(9990..=10010);
    years.extend(-10010..=-9990);
    years.extend(99990..=100010);
    years.extend(-100010..=-99990);
    years.extend(MIN_YEAR - 3..=MIN_YEAR + 3);
    years.extend(MAX_YEAR - 3..=MAX_YEAR + 3);
    let mut year = MIN_YEAR;
    while year <= MAX_YEAR {
        years.push(year);
        year += 997;
    }
    years
}

fn has_leap_day(year: i32) -> bool {
    year.rem_euclid(4) == 0 && (year.rem_euclid(100) != 0 || year.rem_euclid(400) == 0)
}

fn month_length(year: i32, month: u32) -> u32 {
    match month {
        2 if has_leap_day(year) => 29,
        2 => 28,
        4 | 6 | 9 | 11 => 30,
        _ => 31,
    }
}

fn is_a_day(year: i32, month: u32, day: u32) -> bool {
    (MIN_YEAR..=MAX_YEAR).contains(&year)
        && (1..=12).contains(&month)
        && 1 <= day
        && day <= month_length(year, month)
}

fn written(year: i32, month: u32, day: u32) -> String {
    if (0..=9999).contains(&year) {
        format!("{:04}-{:02}-{:02}", year, month, day)
    } else {
        let sign = if year < 0 { '-' } else { '+' };
        format!("{}{:04}-{:02}-{:02}", sign, year.unsigned_abs(), month, day)
    }
}

#[test]
fn exactly_the_days_of_the_calendar_are_made() {
    for year in sample_years() {
        for month in 0..=14 {
            for day in 0..=33 {
                let made = Date::from_ymd(year, month, day);
                assert_eq!(made.is_some(), is_a_day(year, month, day), "{year}-{month}-{day}");
                if let Some(made) = made {
                    assert_eq!((made.year(), made.month(), made.day()), (year, month, day));
                }
            }
        }
    }
}

#[test]
fn far_off_numbers_name_no_day() {
    for (year, month, day) in [
        (i32::MAX, 1, 1),
        (i32::MIN, 1, 1),
        (2024, u32::MAX, 1),
        (2024, 1, u32::MAX),
        (2024, 256 + 1, 1),
        (2024, 1, 256 + 1),
    ] {
        assert_eq!(Date::from_ymd(year, month, day), None);
    }
}

#[test]
fn every_date_is_written_as_the_rule_says_and_read_back() {
    for year in sample_years() {
        for (month, day) in [(1, 1), (2, 28), (6, 9), (10, 30), (12, 31)] {
            if let Some(made) = Date::from_ymd(year, month, day) {
                let text = made.to_text();
                assert_eq!(text, written(year, month, day));
                assert_eq!(Date::parse(&text), Some(made));
            }
        }
    }
}
