//! Calendar dates and the bounds of a month.
//!
//! Dates follow the proleptic Gregorian calendar with astronomical year
//! numbering, as `chrono` implements it. All date arithmetic is done by
//! `chrono`; this module states what it is trusted to return and proves the
//! month bounds from that.

use vstd::prelude::*;
use chrono::Datelike;
use chrono::NaiveDate;
use crate::error::ServiceError;
use crate::text::decimal_text;
use crate::text::zero_padded;

verus! {

/// The first year that the calendar can represent.
pub const MIN_YEAR: i32 = -262143;

/// The last year that the calendar can represent.
pub const MAX_YEAR: i32 = 262142;

/// Whether `year` has a 29th of February.
pub open spec fn is_leap_year(year: int) -> bool {
    year % 4 == 0 && (year % 100 != 0 || year % 400 == 0)
}

/// The number of days of `month` in `year`, for a month in 1..=12.
pub open spec fn days_in_month(year: int, month: int) -> int {
    if month == 2 {
        if is_leap_year(year) {
            29
        } else {
            28
        }
    } else if month == 4 || month == 6 || month == 9 || month == 11 {
        30
    } else {
        31
    }
}

/// Whether the triple names a day that the calendar can represent.
pub open spec fn is_calendar_date(year: int, month: int, day: int) -> bool {
    &&& MIN_YEAR <= year <= MAX_YEAR
    &&& 1 <= month <= 12
    &&& 1 <= day <= days_in_month(year, month)
}

/// A calendar date as three numbers.
pub struct DateView {
    pub year: int,
    pub month: int,
    pub day: int,
}

/// The date with these numbers.
pub open spec fn ymd(year: int, month: int, day: int) -> DateView {
    DateView { year, month, day }
}

/// The date just before `date`, if the calendar can represent it.
pub open spec fn day_before(date: DateView) -> Option<DateView> {
    if date.day > 1 {
        Some(DateView { year: date.year, month: date.month, day: date.day - 1 })
    } else if date.month > 1 {
        Some(
            DateView {
                year: date.year,
                month: date.month - 1,
                day: days_in_month(date.year, date.month - 1),
            },
        )
    } else if date.year > MIN_YEAR {
        Some(DateView { year: date.year - 1, month: 12, day: 31 })
    } else {
        None
    }
}

/// The year as a date's text shows it: four digits for the years 0..=9999,
/// and a sign with at least four digits for any other year.
pub open spec fn year_text(year: int) -> Seq<char> {
    if 0 <= year <= 9999 {
        zero_padded(year as nat, 4)
    } else if year < 0 {
        seq!['-'] + zero_padded((-year) as nat, 4)
    } else {
        seq!['+'] + zero_padded(year as nat, 4)
    }
}

/// The text of a date: year, month and day, with a hyphen between them.
pub open spec fn iso_date_text(date: DateView) -> Seq<char> {
    year_text(date.year) + seq!['-'] + zero_padded(date.month as nat, 2) + seq!['-']
        + zero_padded(date.day as nat, 2)
}

/// A day of the calendar, without time of day.
#[derive(Debug, Clone, Copy, PartialEq, Eq)]
pub struct CalendarDate {
    year: i32,
    month: u32,
    day: u32,
}

impl View for CalendarDate {
    type V = DateView;

    closed spec fn view(&self) -> DateView {
        DateView { year: self.year as int, month: self.month as int, day: self.day as int }
    }
}

impl CalendarDate {
    #[verifier::type_invariant]
    spec fn exists_in_calendar(self) -> bool {
        is_calendar_date(self.year as int, self.month as int, self.day as int)
    }

    /// The date with these numbers, or `None` if the calendar has no such day.
    pub fn from_ymd(year: i32, month: u32, day: u32) -> (r: Option<CalendarDate>)
        ensures
            r is Some <==> is_calendar_date(year as int, month as int, day as int),
            r matches Some(date) ==> date@ == ymd(year as int, month as int, day as int),
    {
        if chrono_date_exists(year, month, day) {
            Some(CalendarDate { year, month, day })
        } else {
            None
        }
    }

    /// The year, in astronomical numbering: the year 0 is 1 BCE.
    pub fn year(&self) -> (r: i32)
        ensures
            r == self@.year,
            is_calendar_date(self@.year, self@.month, self@.day),
    {
        proof {
            use_type_invariant(self);
        }
        self.year
    }

    /// The month, from 1 for January to 12 for December.
    pub fn month(&self) -> (r: u32)
        ensures
            r == self@.month,
            is_calendar_date(self@.year, self@.month, self@.day),
    {
        proof {
            use_type_invariant(self);
        }
        self.month
    }

    /// The day of the month, from 1.
    pub fn day(&self) -> (r: u32)
        ensures
            r == self@.day,
            is_calendar_date(self@.year, self@.month, self@.day),
    {
        proof {
            use_type_invariant(self);
        }
        self.day
    }

    /// The date as text, in the form that the store's date filters take.
    pub fn iso_text(&self) -> (r: String)
        ensures
            r@ == iso_date_text(self@),
    {
        proof {
            use_type_invariant(self);
        }
        chrono_format(self.year, self.month, self.day, "%Y-%m-%d")
    }

    /// The date just before this one, or `None` for the first day of the calendar.
    pub fn pred(&self) -> (r: Option<CalendarDate>)
        ensures
            r is Some <==> day_before(self@) is Some,
            r matches Some(date) ==> Some(date@) == day_before(self@),
    {
        proof {
            use_type_invariant(self);
        }
        match chrono_pred(self.year, self.month, self.day) {
            Some((year, month, day)) => Some(CalendarDate { year, month, day }),
            None => None,
        }
    }
}

/// `chrono::NaiveDate::from_ymd_opt` gives a date exactly for the triples that
/// name a day of the proleptic Gregorian calendar in the years that
/// `NaiveDate` can represent.
#[verifier::external_body]
fn chrono_date_exists(year: i32, month: u32, day: u32) -> (r: bool)
    ensures
        r == is_calendar_date(year as int, month as int, day as int),
{
    NaiveDate::from_ymd_opt(year, month, day).is_some()
}

/// `chrono::NaiveDate::pred_opt` gives the previous day of the calendar, and
/// `None` only for the first representable day. The date is handed over and
/// taken back as year, month and day.
#[verifier::external_body]
fn chrono_pred(year: i32, month: u32, day: u32) -> (r: Option<(i32, u32, u32)>)
    requires
        is_calendar_date(year as int, month as int, day as int),
    ensures
        r is Some <==> day_before(ymd(year as int, month as int, day as int)) is Some,
        r matches Some(p) ==> day_before(ymd(year as int, month as int, day as int)) == Some(
            ymd(p.0 as int, p.1 as int, p.2 as int),
        ),
{
    let date = NaiveDate::from_ymd_opt(year, month, day)?;
    let before = date.pred_opt()?;
    Some((before.year(), before.month(), before.day()))
}

/// `chrono::NaiveDate::format` with the pattern of year, month and day writes
/// the year as `%Y` does (four digits, or a sign and at least four digits
/// outside 0..=9999), then the month and the day with two digits each.
#[verifier::external_body]
fn chrono_format(year: i32, month: u32, day: u32, pattern: &str) -> (r: String)
    requires
        is_calendar_date(year as int, month as int, day as int),
        pattern@ == "%Y-%m-%d"@,
    ensures
        r@ == iso_date_text(ymd(year as int, month as int, day as int)),
{
    NaiveDate::from_ymd_opt(year, month, day)
        .map(|date| date.format(pattern).to_string())
        .unwrap_or_default()
}

/// Whether the calendar can give both the first day of the month and the
/// first day of the month that follows it.
pub open spec fn month_has_bounds(year: int, month: int) -> bool {
    &&& 1 <= month <= 12
    &&& MIN_YEAR <= year <= MAX_YEAR
    &&& !(year == MAX_YEAR && month == 12)
}

/// The first and the last day of a month.
///
/// The last day is found as the day before the first day of the following
/// month, where the month after December is January of the next year. A
/// month outside 1..=12, a year outside the calendar, and the calendar's very
/// last month, which no month follows, are an invalid date range.
pub fn month_bounds(year: i32, month: i32) -> (r: Result<(CalendarDate, CalendarDate), ServiceError>)
    ensures
        month_has_bounds(year as int, month as int) ==> (r matches Ok((first, last)) && first@
            == ymd(year as int, month as int, 1) && last@ == ymd(
            year as int,
            month as int,
            days_in_month(year as int, month as int),
        )),
        !month_has_bounds(year as int, month as int) ==> r == Err::<
            (CalendarDate, CalendarDate),
            ServiceError,
        >(ServiceError::InvalidDateRange),
{
    if month < 1 || month > 12 {
        return Err(ServiceError::InvalidDateRange);
    }
    let first = match CalendarDate::from_ymd(year, month as u32, 1) {
        Some(date) => date,
        None => {
            return Err(ServiceError::InvalidDateRange);
        },
    };
    let next = if month == 12 {
        CalendarDate::from_ymd(year + 1, 1, 1)
    } else {
        CalendarDate::from_ymd(year, (month + 1) as u32, 1)
    };
    let last = match next {
        Some(date) => date.pred(),
        None => None,
    };
    match last {
        Some(date) => Ok((first, date)),
        None => Err(ServiceError::InvalidDateRange),
    }
}

/// The first day of the month after the given one, December being followed
/// by January of the next year.
pub open spec fn first_of_next_month(year: int, month: int) -> DateView {
    if month == 12 {
        ymd(year + 1, 1, 1)
    } else {
        ymd(year, month + 1, 1)
    }
}

/// A month ends on the day before the first day of the month that follows
/// it, and that day is the last one that the month has: the day after it is
/// no day of the same month.
pub proof fn lemma_month_ends_before_the_next(year: int, month: int)
    requires
        1 <= month <= 12,
        MIN_YEAR <= year <= MAX_YEAR,
    ensures
        day_before(first_of_next_month(year, month)) == Some(
            ymd(year, month, days_in_month(year, month)),
        ),
        is_calendar_date(year, month, days_in_month(year, month)),
        !is_calendar_date(year, month, days_in_month(year, month) + 1),
        28 <= days_in_month(year, month) <= 31,
{
}

/// The day before a day of the calendar is a day of the calendar.
pub proof fn lemma_day_before_is_a_date(date: DateView)
    requires
        is_calendar_date(date.year, date.month, date.day),
    ensures
        day_before(date) matches Some(before) ==> is_calendar_date(
            before.year,
            before.month,
            before.day,
        ),
        day_before(date) is None <==> date == ymd(MIN_YEAR as int, 1, 1),
{
}

/// In the years 0 to 9999 the text of a date has ten characters: four
/// digits, a hyphen, two digits, a hyphen, two digits.
pub proof fn lemma_iso_text_shape(date: DateView)
    requires
        is_calendar_date(date.year, date.month, date.day),
        0 <= date.year <= 9999,
    ensures
        iso_date_text(date).len() == 10,
        iso_date_text(date)[4] == '-',
        iso_date_text(date)[7] == '-',
{
    reveal_with_fuel(decimal_text, 5);
}

} // verus!
