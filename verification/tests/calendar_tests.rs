use chrono::Datelike;
use chrono::NaiveDate;
use kepegawaian::calendar::month_bounds;
use kepegawaian::calendar::CalendarDate;
use kepegawaian::calendar::MAX_YEAR;
use kepegawaian::calendar::MIN_YEAR;
use kepegawaian::error::ServiceError;

fn date(year: i32, month: u32, day: u32) -> CalendarDate {
    CalendarDate::from_ymd(year, month, day).unwrap()
}

#[test]
fn february_of_a_leap_year_has_29_days() {
    assert_eq!(month_bounds(2024, 2), Ok((date(2024, 2, 1), date(2024, 2, 29))));
}

#[test]
fn february_of_a_common_year_has_28_days() {
    assert_eq!(month_bounds(2023, 2), Ok((date(2023, 2, 1), date(2023, 2, 28))));
}

#[test]
fn december_ends_on_the_31st_of_the_same_year() {
    assert_eq!(month_bounds(2023, 12), Ok((date(2023, 12, 1), date(2023, 12, 31))));
}

#[test]
fn century_years_are_leap_only_every_400_years() {
    assert_eq!(month_bounds(1900, 2).unwrap().1, date(1900, 2, 28));
    assert_eq!(month_bounds(2000, 2).unwrap().1, date(2000, 2, 29));
    assert_eq!(month_bounds(2100, 2).unwrap().1, date(2100, 2, 28));
}

#[test]
fn every_month_of_2023_has_its_length() {
    let lengths = [31, 28, 31, 30, 31, 30, 31, 31, 30, 31, 30, 31];
    for month in 1..=12 {
        let (first, last) = month_bounds(2023, month).unwrap();
        assert_eq!((first.year(), first.month(), first.day()), (2023, month as u32, 1));
        assert_eq!(
            (last.year(), last.month(), last.day()),
            (2023, month as u32, lengths[(month - 1) as usize])
        );
    }
}

#[test]
fn month_zero_is_an_invalid_date_range() {
    assert_eq!(month_bounds(2024, 0), Err(ServiceError::InvalidDateRange));
}

#[test]
fn month_thirteen_is_an_invalid_date_range() {
    assert_eq!(month_bounds(2024, 13), Err(ServiceError::InvalidDateRange));
}

#[test]
fn negative_and_huge_months_are_invalid_date_ranges() {
    assert_eq!(month_bounds(2024, -1), Err(ServiceError::InvalidDateRange));
    assert_eq!(month_bounds(2024, i32::MIN), Err(ServiceError::InvalidDateRange));
    assert_eq!(month_bounds(2024, i32::MAX), Err(ServiceError::InvalidDateRange));
}

#[test]
fn years_outside_the_calendar_are_invalid_date_ranges() {
    assert_eq!(month_bounds(MAX_YEAR + 1, 1), Err(ServiceError::InvalidDateRange));
    assert_eq!(month_bounds(MIN_YEAR - 1, 1), Err(ServiceError::InvalidDateRange));
    assert_eq!(month_bounds(i32::MAX, 12), Err(ServiceError::InvalidDateRange));
    assert_eq!(month_bounds(i32::MIN, 1), Err(ServiceError::InvalidDateRange));
}

#[test]
fn the_last_month_of_the_calendar_has_no_bounds() {
    assert_eq!(month_bounds(MAX_YEAR, 12), Err(ServiceError::InvalidDateRange));
    assert_eq!(
        month_bounds(MAX_YEAR, 11),
        Ok((date(MAX_YEAR, 11, 1), date(MAX_YEAR, 11, 30)))
    );
}

#[test]
fn the_first_month_of_the_calendar_has_bounds() {
    assert_eq!(month_bounds(MIN_YEAR, 1), Ok((date(MIN_YEAR, 1, 1), date(MIN_YEAR, 1, 31))));
}

#[test]
fn the_calendar_limits_are_those_of_chrono() {
    assert_eq!(NaiveDate::MIN.year(), MIN_YEAR);
    assert_eq!(NaiveDate::MAX.year(), MAX_YEAR);
    assert!(NaiveDate::from_ymd_opt(MAX_YEAR + 1, 1, 1).is_none());
    assert!(NaiveDate::from_ymd_opt(MIN_YEAR - 1, 12, 31).is_none());
}

#[test]
fn bounds_agree_with_chrono_over_many_years() {
    for year in [-262143, -401, -400, -100, -4, -1, 0, 1, 4, 100, 400, 1582, 1900, 1999, 2000, 2024, 9999, 10000, 262141] {
        for month in 1..=12u32 {
            let (first, last) = month_bounds(year, month as i32).unwrap();
            let expected_first = NaiveDate::from_ymd_opt(year, month, 1).unwrap();
            let next = if month == 12 {
                NaiveDate::from_ymd_opt(year + 1, 1, 1).unwrap()
            } else {
                NaiveDate::from_ymd_opt(year, month + 1, 1).unwrap()
            };
            let expected_last = next.pred_opt().unwrap();
            assert_eq!(
                (first.year(), first.month(), first.day()),
                (expected_first.year(), expected_first.month(), expected_first.day())
            );
            assert_eq!(
                (last.year(), last.month(), last.day()),
                (expected_last.year(), expected_last.month(), expected_last.day())
            );
            assert!(CalendarDate::from_ymd(year, month, last.day() + 1).is_none());
        }
    }
}

#[test]
fn from_ymd_refuses_days_that_do_not_exist() {
    assert!(CalendarDate::from_ymd(2023, 2, 29).is_none());
    assert!(CalendarDate::from_ymd(2023, 4, 31).is_none());
    assert!(CalendarDate::from_ymd(2023, 0, 1).is_none());
    assert!(CalendarDate::from_ymd(2023, 13, 1).is_none());
    assert!(CalendarDate::from_ymd(2023, 1, 0).is_none());
    assert!(CalendarDate::from_ymd(2023, 1, 32).is_none());
    assert!(CalendarDate::from_ymd(400000, 1, 1).is_none());
    assert!(CalendarDate::from_ymd(-4, 2, 29).is_some());
}

#[test]
fn from_ymd_keeps_the_numbers() {
    let d = date(2015, 3, 14);
    assert_eq!((d.year(), d.month(), d.day()), (2015, 3, 14));
}

#[test]
fn pred_steps_back_one_day() {
    assert_eq!(date(2015, 6, 3).pred(), Some(date(2015, 6, 2)));
    assert_eq!(date(2015, 6, 1).pred(), Some(date(2015, 5, 31)));
    assert_eq!(date(2015, 3, 1).pred(), Some(date(2015, 2, 28)));
    assert_eq!(date(2016, 3, 1).pred(), Some(date(2016, 2, 29)));
    assert_eq!(date(2015, 1, 1).pred(), Some(date(2014, 12, 31)));
}

#[test]
fn the_first_day_of_the_calendar_has_no_predecessor() {
    assert_eq!(date(MIN_YEAR, 1, 1).pred(), None);
    assert_eq!(date(MIN_YEAR, 1, 2).pred(), Some(date(MIN_YEAR, 1, 1)));
}

#[test]
fn iso_text_has_four_two_and_two_digits() {
    assert_eq!(date(2024, 2, 1).iso_text(), "2024-02-01");
    assert_eq!(date(2023, 12, 31).iso_text(), "2023-12-31");
    assert_eq!(date(1000, 10, 10).iso_text(), "1000-10-10");
}

#[test]
fn iso_text_pads_small_years_with_zeros() {
    assert_eq!(date(5, 1, 9).iso_text(), "0005-01-09");
    assert_eq!(date(0, 1, 1).iso_text(), "0000-01-01");
    assert_eq!(date(999, 12, 31).iso_text(), "0999-12-31");
    assert_eq!(date(9999, 12, 31).iso_text(), "9999-12-31");
}

#[test]
fn iso_text_signs_years_outside_four_digits() {
    assert_eq!(date(-1, 1, 1).iso_text(), "-0001-01-01");
    assert_eq!(date(-12345, 6, 7).iso_text(), "-12345-06-07");
    assert_eq!(date(10000, 1, 1).iso_text(), "+10000-01-01");
    assert_eq!(date(MAX_YEAR, 12, 31).iso_text(), "+262142-12-31");
    assert_eq!(date(MIN_YEAR, 1, 1).iso_text(), "-262143-01-01");
}
