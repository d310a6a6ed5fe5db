//! Calendar days of the proleptic Gregorian calendar, kept as a year and the
//! day's number within that year, and the clock.

use chrono::Datelike;
use vstd::arithmetic::div_mod::lemma_mod_multiples_vanish;
use vstd::prelude::*;
use vstd::string::*;

use crate::error::AppError;

verus! {

/// The earliest year a date can have.
pub const MIN_YEAR: i32 = -262143;

/// The latest year a date can have.
pub const MAX_YEAR: i32 = 262142;

/// A year is a leap year when it is divisible by 4 and not by 100, or by 400.
pub open spec fn is_leap_year(year: int) -> bool {
    (year % 4 == 0 && year % 100 != 0) || year % 400 == 0
}

/// The number of days of a year: 366 in a leap year, else 365.
pub open spec fn days_in_year(year: int) -> int {
    if is_leap_year(year) {
        366
    } else {
        365
    }
}

/// The number of days of `year` that lie before the first day of `month`;
/// for a month past December, the whole year.
pub open spec fn days_before_month(year: int, month: int) -> int {
    let leap_day: int = if is_leap_year(year) && month > 2 {
        1
    } else {
        0
    };
    let common: int = if month <= 1 {
        0
    } else if month == 2 {
        31
    } else if month == 3 {
        59
    } else if month == 4 {
        90
    } else if month == 5 {
        120
    } else if month == 6 {
        151
    } else if month == 7 {
        181
    } else if month == 8 {
        212
    } else if month == 9 {
        243
    } else if month == 10 {
        273
    } else if month == 11 {
        304
    } else if month == 12 {
        334
    } else {
        365
    };
    common + leap_day
}

/// The number of days of a month.
pub open spec fn days_in_month(year: int, month: int) -> int {
    days_before_month(year, month + 1) - days_before_month(year, month)
}

/// The month, from 1, in which the day numbered `ordinal` of `year` falls.
pub open spec fn month_of(year: int, ordinal: int) -> int {
    if ordinal <= days_before_month(year, 2) {
        1
    } else if ordinal <= days_before_month(year, 3) {
        2
    } else if ordinal <= days_before_month(year, 4) {
        3
    } else if ordinal <= days_before_month(year, 5) {
        4
    } else if ordinal <= days_before_month(year, 6) {
        5
    } else if ordinal <= days_before_month(year, 7) {
        6
    } else if ordinal <= days_before_month(year, 8) {
        7
    } else if ordinal <= days_before_month(year, 9) {
        8
    } else if ordinal <= days_before_month(year, 10) {
        9
    } else if ordinal <= days_before_month(year, 11) {
        10
    } else if ordinal <= days_before_month(year, 12) {
        11
    } else {
        12
    }
}

/// The day of the month, from 1, of the day numbered `ordinal` of `year`.
pub open spec fn day_of_month(year: int, ordinal: int) -> int {
    ordinal - days_before_month(year, month_of(year, ordinal))
}

/// A multiple of 400 that lifts every year above zero without changing what
/// it leaves when divided by 4, by 100 or by 400.
const YEAR_LIFT: i64 = 2147484000;

/// Whether `year` is a leap year.
pub fn leap_year(year: i32) -> (leap: bool)
    ensures
        leap == is_leap_year(year as int),
{
    let lifted: u64 = (year as i64 + YEAR_LIFT) as u64;
    proof {
        lemma_mod_multiples_vanish(536871000, year as int, 4);
        lemma_mod_multiples_vanish(21474840, year as int, 100);
        lemma_mod_multiples_vanish(5368710, year as int, 400);
        assert(lifted as int == 4 * 536871000 + year as int);
        assert(lifted as int == 100 * 21474840 + year as int);
        assert(lifted as int == 400 * 5368710 + year as int);
    }
    (lifted % 4 == 0 && lifted % 100 != 0) || lifted % 400 == 0
}

/// The number of days of `year`.
pub fn year_length(year: i32) -> (days: u32)
    ensures
        days == days_in_year(year as int),
{
    if leap_year(year) {
        366
    } else {
        365
    }
}

/// The number of days of `year` before the first day of `month`.
pub fn month_offset(year: i32, month: u32) -> (days: u32)
    ensures
        days == days_before_month(year as int, month as int),
{
    let leap_day: u32 = if month > 2 && leap_year(year) {
        1
    } else {
        0
    };
    let common: u32 = if month <= 1 {
        0
    } else if month == 2 {
        31
    } else if month == 3 {
        59
    } else if month == 4 {
        90
    } else if month == 5 {
        120
    } else if month == 6 {
        151
    } else if month == 7 {
        181
    } else if month == 8 {
        212
    } else if month == 9 {
        243
    } else if month == 10 {
        273
    } else if month == 11 {
        304
    } else if month == 12 {
        334
    } else {
        365
    };
    common + leap_day
}

/// A calendar day: a year and the day's number within it, from 1.
#[derive(Clone, Copy, Debug, PartialEq, Eq, Structural)]
pub struct Date {
    pub year: i32,
    pub ordinal: u32,
}

/// What the calendar library reads from a text in the form `YYYY-MM-DD`: the
/// year and the day's number within the year, or nothing where it rejects the
/// text.
pub uninterp spec fn iso_date_parse(text: Seq<char>) -> Option<(int, int)>;

/// The text in the form `YYYY-MM-DD` that the calendar library writes for the
/// day numbered `ordinal` of `year`.
pub uninterp spec fn iso_date_text(year: int, ordinal: int) -> Seq<char>;

/// The character of a decimal digit.
pub open spec fn digit_char(digit: int) -> char {
    if digit == 0 {
        '0'
    } else if digit == 1 {
        '1'
    } else if digit == 2 {
        '2'
    } else if digit == 3 {
        '3'
    } else if digit == 4 {
        '4'
    } else if digit == 5 {
        '5'
    } else if digit == 6 {
        '6'
    } else if digit == 7 {
        '7'
    } else if digit == 8 {
        '8'
    } else {
        '9'
    }
}

/// A number below one hundred in two digits, with a leading zero if need be.
pub open spec fn two_digits(number: int) -> Seq<char> {
    seq![digit_char(number / 10), digit_char(number % 10)]
}

/// The text of a day whose year has at most four digits: the year in four
/// digits, the month in two and the day of the month in two, with hyphens
/// between them.
pub open spec fn plain_date_text(year: int, month: int, day: int) -> Seq<char> {
    two_digits(year / 100) + two_digits(year % 100) + seq!['-'] + two_digits(month) + seq!['-']
        + two_digits(day)
}

/// The ISO 8601 week number of the day numbered `ordinal` of `year`.
pub uninterp spec fn iso_week_of(year: int, ordinal: int) -> int;

/// The ISO 8601 weekday number, Monday being 1, of the day numbered `ordinal`
/// of `year`.
pub uninterp spec fn weekday_of(year: int, ordinal: int) -> int;

impl Date {
    /// The day exists and its year is within the supported range.
    pub open spec fn wf(&self) -> bool {
        &&& MIN_YEAR <= self.year <= MAX_YEAR
        &&& 1 <= self.ordinal <= days_in_year(self.year as int)
    }

    /// The month, from 1.
    pub open spec fn month_number(&self) -> int {
        month_of(self.year as int, self.ordinal as int)
    }

    /// The day of the month, from 1.
    pub open spec fn day_number(&self) -> int {
        day_of_month(self.year as int, self.ordinal as int)
    }

    /// This day comes strictly before `other`.
    pub open spec fn precedes(&self, other: Date) -> bool {
        self.year < other.year || (self.year == other.year && self.ordinal < other.ordinal)
    }

    /// The day before this one, where the supported range holds one.
    pub open spec fn previous(&self) -> Option<Date> {
        if self.ordinal > 1 {
            Some(Date { year: self.year, ordinal: (self.ordinal - 1) as u32 })
        } else if self.year > MIN_YEAR {
            Some(Date { year: (self.year - 1) as i32, ordinal: days_in_year(self.year - 1) as u32 })
        } else {
            None
        }
    }

    /// The day numbered `ordinal` of `year`, if there is such a day.
    pub fn from_ordinal(year: i32, ordinal: u32) -> (date: Option<Date>)
        ensures
            date is Some <==> (Date { year, ordinal }).wf(),
            date matches Some(d) ==> d == (Date { year, ordinal }),
    {
        if year < MIN_YEAR || year > MAX_YEAR || ordinal < 1 || ordinal > year_length(year) {
            None
        } else {
            Some(Date { year, ordinal })
        }
    }

    /// The given day of the given month, if the calendar has it.
    pub fn from_ymd(year: i32, month: u32, day: u32) -> (date: Option<Date>)
        ensures
            date is Some <==> {
                &&& MIN_YEAR <= year <= MAX_YEAR
                &&& 1 <= month <= 12
                &&& 1 <= day <= days_in_month(year as int, month as int)
            },
            date matches Some(d) ==> {
                &&& d.wf()
                &&& d.year == year
                &&& d.month_number() == month
                &&& d.day_number() == day
            },
    {
        if year < MIN_YEAR || year > MAX_YEAR || month < 1 || month > 12 || day < 1 {
            return None;
        }
        let before: u32 = month_offset(year, month);
        let after: u32 = month_offset(year, month + 1);
        if day > after - before {
            return None;
        }
        Some(Date { year, ordinal: before + day })
    }

    /// The month of this day, from 1.
    pub fn month(&self) -> (month: u32)
        requires
            self.wf(),
        ensures
            month == self.month_number(),
            1 <= month <= 12,
    {
        let mut month: u32 = 1;
        while month < 12 && self.ordinal > month_offset(self.year, month + 1)
            invariant
                1 <= month <= 12,
                self.ordinal > days_before_month(self.year as int, month as int),
                self.wf(),
            decreases 12 - month,
        {
            month = month + 1;
        }
        month
    }

    /// The day of the month of this day, from 1.
    pub fn day(&self) -> (day: u32)
        requires
            self.wf(),
        ensures
            day == self.day_number(),
            1 <= day <= days_in_month(self.year as int, self.month_number()),
    {
        let month: u32 = self.month();
        self.ordinal - month_offset(self.year, month)
    }

    /// Whether this day comes strictly before `other`.
    pub fn is_before(&self, other: &Date) -> (before: bool)
        ensures
            before == self.precedes(*other),
    {
        self.year < other.year || (self.year == other.year && self.ordinal < other.ordinal)
    }

    /// The day before this one; `None` on the first day of the supported range.
    pub fn pred(&self) -> (day: Option<Date>)
        requires
            self.wf(),
        ensures
            day == self.previous(),
            day matches Some(d) ==> d.wf() && d.precedes(*self),
    {
        if self.ordinal > 1 {
            Some(Date { year: self.year, ordinal: self.ordinal - 1 })
        } else if self.year > MIN_YEAR {
            Some(Date { year: self.year - 1, ordinal: year_length(self.year - 1) })
        } else {
            None
        }
    }

    /// The day as text in the form `YYYY-MM-DD`. For a year of at most four
    /// digits the text is spelled out; for any other year it is what the
    /// calendar library writes.
    pub fn to_iso_string(&self) -> (text: String)
        requires
            self.wf(),
        ensures
            is_date_text(text@, *self),
    {
        format_iso_date(*self)
    }

    /// The ISO 8601 week number of this day, from 1 to 53.
    pub fn iso_week(&self) -> (week: u32)
        requires
            self.wf(),
        ensures
            week == iso_week_of(self.year as int, self.ordinal as int),
            1 <= week <= 53,
    {
        iso_week_number(*self)
    }

    /// The ISO 8601 weekday number of this day: 1 for Monday to 7 for Sunday.
    pub fn weekday(&self) -> (number: u32)
        requires
            self.wf(),
        ensures
            number == weekday_of(self.year as int, self.ordinal as int),
            1 <= number <= 7,
    {
        weekday_number(*self)
    }
}

/// Within a year, the month and the day of the month determine the day: two
/// days of one year that agree in both are the same day.
pub proof fn month_and_day_determine_the_day(first: Date, second: Date)
    requires
        first.wf(),
        second.wf(),
        first.year == second.year,
        first.month_number() == second.month_number(),
        first.day_number() == second.day_number(),
    ensures
        first == second,
{
}

/// `text` is the text of the day `date` in the form `YYYY-MM-DD`: what the
/// calendar library writes for it, which for a year of at most four digits
/// is the year in four digits, the month in two and the day in two.
pub open spec fn is_date_text(text: Seq<char>, date: Date) -> bool {
    &&& text == iso_date_text(date.year as int, date.ordinal as int)
    &&& 0 <= date.year <= 9999 ==> text == plain_date_text(
        date.year as int,
        date.month_number(),
        date.day_number(),
    )
}

/// The day before a day is the greatest day that precedes it: no day lies
/// strictly between the two.
pub proof fn previous_day_is_adjacent(day: Date, other: Date)
    requires
        day.wf(),
        other.wf(),
        other.precedes(day),
    ensures
        day.previous() matches Some(before) && (other == before || other.precedes(before)),
{
}

/// The day that a text in the form `YYYY-MM-DD` stands for, if it is read as
/// one.
pub open spec fn date_of_text(text: Seq<char>) -> Option<Date> {
    match iso_date_parse(text) {
        Some((year, ordinal)) => Some(Date { year: year as i32, ordinal: ordinal as u32 }),
        None => None,
    }
}

/// Reads a day from a text in the form `YYYY-MM-DD`. A text that the calendar
/// library rejects is a validation error.
pub fn parse_date(text: &str) -> (parsed: Result<Date, AppError>)
    ensures
        match parsed {
            Ok(date) => date.wf() && date_of_text(text@) == Some(date),
            Err(error) => {
                &&& date_of_text(text@) is None
                &&& error matches AppError::Validation(detail) && detail@ == "Invalid date"@
            },
        },
{
    match parse_iso_date(text) {
        Some(date) => Ok(date),
        None => Err(AppError::Validation(String::from_str("Invalid date"))),
    }
}

/// Calls `chrono::NaiveDate::parse_from_str` with the format `%Y-%m-%d`, and
/// reads the year and the ordinal of the date it returns. Trusted: the result
/// is a function of the text alone, and a date that chrono returns exists in
/// the calendar, within chrono's range of years.
#[verifier::external_body]
fn parse_iso_date(text: &str) -> (parsed: Option<Date>)
    ensures
        match parsed {
            Some(date) => date.wf() && iso_date_parse(text@) == Some(
                (date.year as int, date.ordinal as int),
            ),
            None => iso_date_parse(text@) is None,
        },
{
    match chrono::NaiveDate::parse_from_str(text, "%Y-%m-%d") {
        Ok(date) => Some(Date { year: date.year(), ordinal: date.ordinal() }),
        Err(_) => None,
    }
}

/// Calls `chrono::NaiveDate::format` with the format `%Y-%m-%d` on the date
/// that `chrono::NaiveDate::from_yo_opt` makes. Trusted: the text is a
/// function of the year and the ordinal alone; for a year from 0 to 9999 it
/// is the year padded with zeros to four digits, the month and the day of
/// the month padded to two, with hyphens between them.
#[verifier::external_body]
fn format_iso_date(date: Date) -> (text: String)
    requires
        date.wf(),
    ensures
        text@ == iso_date_text(date.year as int, date.ordinal as int),
        0 <= date.year <= 9999 ==> text@ == plain_date_text(
            date.year as int,
            date.month_number(),
            date.day_number(),
        ),
{
    chrono::NaiveDate::from_yo_opt(date.year, date.ordinal).unwrap().format("%Y-%m-%d").to_string()
}

/// Calls `chrono::IsoWeek::week` on the ISO week of the date. Trusted: the
/// number is a function of the date alone and lies between 1 and 53.
#[verifier::external_body]
fn iso_week_number(date: Date) -> (week: u32)
    requires
        date.wf(),
    ensures
        week == iso_week_of(date.year as int, date.ordinal as int),
        1 <= week <= 53,
{
    chrono::NaiveDate::from_yo_opt(date.year, date.ordinal).unwrap().iso_week().week()
}

/// Calls `chrono::Weekday::number_from_monday` on the weekday of the date.
/// Trusted: the number is a function of the date alone and lies between 1,
/// for Monday, and 7.
#[verifier::external_body]
fn weekday_number(date: Date) -> (number: u32)
    requires
        date.wf(),
    ensures
        number == weekday_of(date.year as int, date.ordinal as int),
        1 <= number <= 7,
{
    chrono::NaiveDate::from_yo_opt(date.year, date.ordinal).unwrap().weekday().number_from_monday()
}

/// Calls `chrono::Utc::now` and reads the year and the ordinal of its date.
/// Trusted: the date exists in the calendar; which date it is depends on the
/// clock. The call fails where the clock stands before 1970.
#[verifier::external_body]
pub(crate) fn today_utc() -> (today: Date)
    ensures
        today.wf(),
{
    let date = chrono::Utc::now().date_naive();
    Date { year: date.year(), ordinal: date.ordinal() }
}

/// Calls `chrono::Local::now` and reads the year and the ordinal of its date.
/// Trusted: the date exists in the calendar; which date it is depends on the
/// clock and on the machine's time zone. The call fails where the clock
/// stands before 1970.
#[verifier::external_body]
pub(crate) fn today_local() -> (today: Date)
    ensures
        today.wf(),
{
    let date = chrono::Local::now().date_naive();
    Date { year: date.year(), ordinal: date.ordinal() }
}

/// Calls `chrono::Utc::now` and `chrono::DateTime::timestamp`: the seconds
/// since 1970 that the clock shows. Nothing is claimed of the value. The call
/// fails where the clock stands before 1970.
#[verifier::external_body]
pub(crate) fn unix_now() -> i64 {
    chrono::Utc::now().timestamp()
}

} // verus!
