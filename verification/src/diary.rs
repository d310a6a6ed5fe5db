//! The journal: what a new entry must satisfy, the fields derived from an
//! entry's date, and the scaffold that gives every day of a year its primary
//! page.

use vstd::prelude::*;
use vstd::string::*;

use crate::calendar::{
    date_of_text, days_in_year, is_date_text, iso_week_of, parse_date, today_utc, unix_now,
    weekday_of, year_length, Date, MAX_YEAR, MIN_YEAR,
};
use crate::error::{verdict_is, AppError};
use crate::ids::fresh_id;
use crate::text::copy_text;

verus! {

/// The first year for which journal entries are accepted.
pub const FIRST_JOURNAL_YEAR: i32 = 2026;

/// What a caller hands in to create a journal entry.
#[derive(Clone, Debug, PartialEq, Eq)]
pub struct CreateDiaryInput {
    pub entry_date: String,
    pub content_json: String,
    pub title: Option<String>,
}

/// The fields of a journal row that follow from its date.
#[derive(Clone, Copy, Debug, PartialEq, Eq, Structural)]
pub struct DateParts {
    pub year: i32,
    pub month: i32,
    pub day: i32,
    pub week_of_year: i32,
    pub day_of_week: i32,
}

/// A journal row that is ready to be stored. The rows that the scaffold makes
/// are stored as primary pages.
#[derive(Clone, Debug, PartialEq, Eq)]
pub struct NewDiaryEntry {
    pub diary_entry_id: String,
    pub entry_date: Date,
    pub entry_date_text: String,
    pub parts: DateParts,
    pub content_json: String,
    pub title: Option<String>,
    pub created_at: i64,
    pub updated_at: i64,
}

/// The fields that follow from a date: year, month, day of the month, ISO
/// week number, and ISO weekday number with Monday as 1.
pub open spec fn parts_of(date: Date) -> DateParts {
    DateParts {
        year: date.year,
        month: date.month_number() as i32,
        day: date.day_number() as i32,
        week_of_year: iso_week_of(date.year as int, date.ordinal as int) as i32,
        day_of_week: weekday_of(date.year as int, date.ordinal as int) as i32,
    }
}

/// The content of a page that nobody has written yet: one empty paragraph.
pub open spec fn empty_page_content() -> Seq<char> {
    "[{\"type\":\"paragraph\",\"content\":[]}]"@
}

/// The title of a scaffolded page whose date is written as `date_text`.
pub open spec fn scaffold_title(date_text: Seq<char>) -> Seq<char> {
    "Reflection: "@ + date_text
}

/// `page` is the primary page that the scaffold makes for `date`.
pub open spec fn is_scaffold_page(page: NewDiaryEntry, date: Date) -> bool {
    &&& page.entry_date == date
    &&& is_date_text(page.entry_date_text@, date)
    &&& page.parts == parts_of(date)
    &&& page.content_json@ == empty_page_content()
    &&& page.title matches Some(title) && title@ == scaffold_title(page.entry_date_text@)
    &&& page.created_at == page.updated_at
}

/// The days among the first `count` days of `year` that `existing` does not
/// hold, in the order of the calendar.
pub open spec fn missing_among(year: int, existing: Seq<Date>, count: nat) -> Seq<Date>
    decreases count,
{
    if count == 0 {
        Seq::empty()
    } else {
        let earlier = missing_among(year, existing, (count - 1) as nat);
        let day = Date { year: year as i32, ordinal: count as u32 };
        if existing.contains(day) {
            earlier
        } else {
            earlier.push(day)
        }
    }
}

/// The days of `year` that `existing` does not hold, in the order of the
/// calendar.
pub open spec fn missing_days(year: int, existing: Seq<Date>) -> Seq<Date> {
    missing_among(year, existing, days_in_year(year) as nat)
}

/// The fields that follow from a date.
pub fn date_parts(date: Date) -> (parts: DateParts)
    requires
        date.wf(),
    ensures
        parts == parts_of(date),
        1 <= parts.month <= 12,
        1 <= parts.day <= 31,
        1 <= parts.week_of_year <= 53,
        1 <= parts.day_of_week <= 7,
{
    let month: u32 = date.month();
    let day: u32 = date.day();
    let week: u32 = date.iso_week();
    let weekday: u32 = date.weekday();
    DateParts {
        year: date.year,
        month: month as i32,
        day: day as i32,
        week_of_year: week as i32,
        day_of_week: weekday as i32,
    }
}

/// Why a new entry is refused, if it is: its date was not read, lies before
/// the first journal year or after today, or its content is empty. The first
/// that applies, in this order, decides.
pub open spec fn create_refusal(date: Option<Date>, today: Date, content: Seq<char>) -> Option<
    Seq<char>,
> {
    match date {
        None => Some("Invalid date format. Expected YYYY-MM-DD."@),
        Some(day) => if day.year < FIRST_JOURNAL_YEAR {
            Some("Diary entries must start from 2026 onwards."@)
        } else if today.precedes(day) {
            Some("Future dates are currently locked for new entries."@)
        } else if content.len() == 0 {
            Some("Content cannot be empty."@)
        } else {
            None
        },
    }
}

/// Why a change to an entry is refused, if it is: the entry's date was not
/// read, or lies after today.
pub open spec fn update_refusal(date: Option<Date>, today: Date) -> Option<Seq<char>> {
    match date {
        None => Some("Invalid entry date format."@),
        Some(day) => if today.precedes(day) {
            Some("Future entries cannot be modified."@)
        } else {
            None
        },
    }
}

/// Decides on a new entry whose date was read as `date`, today being `today`.
pub fn decide_create(date: Option<Date>, today: Date, content_json: &str) -> (verdict: Result<
    (),
    AppError,
>)
    ensures
        verdict_is(verdict, create_refusal(date, today, content_json@)),
{
    match date {
        None => Err(
            AppError::Validation(String::from_str("Invalid date format. Expected YYYY-MM-DD.")),
        ),
        Some(day) => {
            if day.year < FIRST_JOURNAL_YEAR {
                Err(
                    AppError::Validation(
                        String::from_str("Diary entries must start from 2026 onwards."),
                    ),
                )
            } else if today.is_before(&day) {
                Err(
                    AppError::Validation(
                        String::from_str("Future dates are currently locked for new entries."),
                    ),
                )
            } else if content_json.is_empty() {
                Err(AppError::Validation(String::from_str("Content cannot be empty.")))
            } else {
                Ok(())
            }
        },
    }
}

/// Decides on a change to an entry whose date was read as `date`, today
/// being `today`.
pub fn decide_update(date: Option<Date>, today: Date) -> (verdict: Result<(), AppError>)
    ensures
        verdict_is(verdict, update_refusal(date, today)),
{
    match date {
        None => Err(AppError::Validation(String::from_str("Invalid entry date format."))),
        Some(day) => {
            if today.is_before(&day) {
                Err(AppError::Validation(String::from_str("Future entries cannot be modified.")))
            } else {
                Ok(())
            }
        },
    }
}

/// Reads the date that a decision goes by: the day, or nothing where the text is refused.
fn read_date(text: &str) -> (date: Option<Date>)
    ensures
        date == date_of_text(text@),
        date matches Some(day) ==> day.wf(),
{
    match parse_date(text) {
        Ok(day) => Some(day),
        Err(_) => None,
    }
}

/// Validates a new journal entry against the clock's current day. The date
/// must be read, must not lie before the first journal year nor after today,
/// and the content must not be empty.
pub fn validate_create(input: &CreateDiaryInput) -> (verdict: Result<(), AppError>)
    ensures
        exists|today: Date| #[trigger]
            today.wf() && verdict_is(
                verdict,
                create_refusal(date_of_text(input.entry_date@), today, input.content_json@),
            ),
{
    let date: Option<Date> = read_date(input.entry_date.as_str());
    let today: Date = today_utc();
    let verdict = decide_create(date, today, input.content_json.as_str());
    proof {
        assert(today.wf() && verdict_is(
            verdict,
            create_refusal(date_of_text(input.entry_date@), today, input.content_json@),
        ));
    }
    verdict
}

/// Validates a change to the journal entry of the given date against the
/// clock's current day. The date must be read and must not lie after today.
pub fn validate_update(entry_date: &str) -> (verdict: Result<(), AppError>)
    ensures
        exists|today: Date| #[trigger]
            today.wf() && verdict_is(verdict, update_refusal(date_of_text(entry_date@), today)),
{
    let date: Option<Date> = read_date(entry_date);
    let today: Date = today_utc();
    let verdict = decide_update(date, today);
    proof {
        assert(today.wf() && verdict_is(verdict, update_refusal(date_of_text(entry_date@), today)));
    }
    verdict
}

/// Prepares the row for a new journal entry: the fields derived from its
/// date, a fresh identifier, and the clock's time as both timestamps. An
/// entry whose date is not read is refused.
pub fn insert_entry(input: &CreateDiaryInput) -> (row: Result<NewDiaryEntry, AppError>)
    ensures
        match row {
            Ok(entry) => {
                &&& date_of_text(input.entry_date@) == Some(entry.entry_date)
                &&& entry.entry_date.wf()
                &&& entry.entry_date_text@ == input.entry_date@
                &&& entry.parts == parts_of(entry.entry_date)
                &&& entry.content_json@ == input.content_json@
                &&& entry.title == input.title
                &&& entry.created_at == entry.updated_at
            },
            Err(error) => {
                &&& date_of_text(input.entry_date@) is None
                &&& error matches AppError::Validation(detail) && detail@ == "Invalid date"@
            },
        },
{
    let now: i64 = unix_now();
    match parse_date(input.entry_date.as_str()) {
        Ok(date) => {
            let title: Option<String> = copy_text(&input.title);
            Ok(
                NewDiaryEntry {
                    diary_entry_id: fresh_id(),
                    entry_date: date,
                    entry_date_text: input.entry_date.clone(),
                    parts: date_parts(date),
                    content_json: input.content_json.clone(),
                    title,
                    created_at: now,
                    updated_at: now,
                },
            )
        },
        Err(error) => Err(error),
    }
}

/// Whether `existing` holds `day`.
fn has_date(existing: &Vec<Date>, day: Date) -> (found: bool)
    ensures
        found == existing@.contains(day),
{
    let mut index: usize = 0;
    while index < existing.len()
        invariant
            index <= existing.len(),
            forall|i: int| 0 <= i < index ==> existing@[i] != day,
        decreases existing.len() - index,
    {
        if existing[index] == day {
            return true;
        }
        index = index + 1;
    }
    false
}

/// The primary page for a day that has none: empty content, a title made of
/// the date, the fields derived from the date, a fresh identifier, and the
/// clock's time as both timestamps.
fn scaffold_page(date: Date) -> (page: NewDiaryEntry)
    requires
        date.wf(),
    ensures
        is_scaffold_page(page, date),
{
    let text: String = date.to_iso_string();
    let title: String = String::from_str("Reflection: ").concat(text.as_str());
    let now: i64 = unix_now();
    NewDiaryEntry {
        diary_entry_id: fresh_id(),
        entry_date: date,
        entry_date_text: text,
        parts: date_parts(date),
        content_json: String::from_str("[{\"type\":\"paragraph\",\"content\":[]}]"),
        title: Some(title),
        created_at: now,
        updated_at: now,
    }
}

/// Gives every day of `year` its primary page. `existing` holds the days that
/// already have one; the result holds one new page for each other day of the
/// year, in the order of the calendar, and none for a day that has one.
pub fn ensure_yearly_entries(year: i32, existing: &Vec<Date>) -> (pages: Vec<NewDiaryEntry>)
    requires
        MIN_YEAR <= year <= MAX_YEAR,
    ensures
        pages@.len() == missing_days(year as int, existing@).len(),
        forall|i: int|
            0 <= i < pages@.len() ==> is_scaffold_page(
                #[trigger] pages@[i],
                missing_days(year as int, existing@)[i],
            ),
{
    let days_count: u32 = year_length(year);
    let mut pages: Vec<NewDiaryEntry> = Vec::new();
    let mut done: u32 = 0;
    while done < days_count
        invariant
            MIN_YEAR <= year <= MAX_YEAR,
            days_count == days_in_year(year as int),
            done <= days_count,
            pages@.len() == missing_among(year as int, existing@, done as nat).len(),
            forall|i: int|
                0 <= i < pages@.len() ==> is_scaffold_page(
                    #[trigger] pages@[i],
                    missing_among(year as int, existing@, done as nat)[i],
                ),
        decreases days_count - done,
    {
        let date = Date { year, ordinal: done + 1 };
        if !has_date(existing, date) {
            let page = scaffold_page(date);
            pages.push(page);
        }
        done = done + 1;
    }
    pages
}

/// The day numbered `ordinal` of `year`.
pub open spec fn year_day(year: i32, ordinal: u32) -> Date {
    Date { year, ordinal }
}

/// A day is among the missing ones exactly when it is one of the first
/// `count` days of the year and `existing` does not hold it.
pub proof fn missing_among_holds(year: i32, existing: Seq<Date>, count: nat, day: Date)
    requires
        count <= 366,
    ensures
        missing_among(year as int, existing, count).contains(day) <==> {
            &&& day.year == year
            &&& 1 <= day.ordinal <= count
            &&& !existing.contains(day)
        },
    decreases count,
{
    if count > 0 {
        let earlier = missing_among(year as int, existing, (count - 1) as nat);
        missing_among_holds(year, existing, (count - 1) as nat, day);
        let last = Date { year, ordinal: count as u32 };
        if !existing.contains(last) {
            let all = earlier.push(last);
            if all.contains(day) {
                let i = choose|i: int| 0 <= i < all.len() && all[i] == day;
                if i < earlier.len() {
                    assert(earlier[i] == day);
                }
            }
            if earlier.contains(day) {
                let i = choose|i: int| 0 <= i < earlier.len() && earlier[i] == day;
                assert(all[i] == day);
            }
            if day == last {
                assert(all[all.len() - 1] == day);
            }
        }
    }
}

/// The missing days come in the order of the calendar, each once: a later
/// one has a greater number within the year.
pub proof fn missing_among_ascends(year: i32, existing: Seq<Date>, count: nat)
    requires
        count <= 366,
    ensures
        forall|i: int|
            0 <= i < missing_among(year as int, existing, count).len() ==> {
                &&& (#[trigger] missing_among(year as int, existing, count)[i]).year == year
                &&& 1 <= missing_among(year as int, existing, count)[i].ordinal <= count
            },
        forall|i: int, j: int|
            0 <= i < j < missing_among(year as int, existing, count).len() ==> (
            #[trigger] missing_among(year as int, existing, count)[i]).ordinal < (
            #[trigger] missing_among(year as int, existing, count)[j]).ordinal,
    decreases count,
{
    if count > 0 {
        let earlier = missing_among(year as int, existing, (count - 1) as nat);
        let all = missing_among(year as int, existing, count);
        missing_among_ascends(year, existing, (count - 1) as nat);
        assert forall|i: int| 0 <= i < all.len() implies (#[trigger] all[i]).year == year && 1
            <= all[i].ordinal <= count by {
            if i < earlier.len() {
                assert(all[i] == earlier[i]);
            }
        }
        assert forall|i: int, j: int| 0 <= i < j < all.len() implies (#[trigger] all[i]).ordinal < (
        #[trigger] all[j]).ordinal by {
            assert(all[i] == earlier[i]);
            if j < earlier.len() {
                assert(all[j] == earlier[j]);
            }
        }
    }
}

/// Where no day of the first `count` has a page, all of them are missing.
proof fn missing_among_nothing(year: i32, existing: Seq<Date>, count: nat)
    requires
        count <= 366,
        forall|day: Date| existing.contains(day) ==> day.year != year,
    ensures
        missing_among(year as int, existing, count).len() == count,
        forall|i: int|
            0 <= i < count ==> #[trigger] missing_among(year as int, existing, count)[i] == (Date {
                year,
                ordinal: (i + 1) as u32,
            }),
    decreases count,
{
    if count > 0 {
        missing_among_nothing(year, existing, (count - 1) as nat);
    }
}

/// Where every day of the first `count` has a page, none is missing.
proof fn missing_among_everything(year: i32, existing: Seq<Date>, count: nat)
    requires
        count <= 366,
        forall|ordinal: u32| 1 <= ordinal <= count ==> existing.contains(#[trigger] year_day(year, ordinal)),
    ensures
        missing_among(year as int, existing, count).len() == 0,
    decreases count,
{
    if count > 0 {
        missing_among_everything(year, existing, (count - 1) as nat);
        assert(existing.contains(year_day(year, count as u32)));
    }
}

/// In a year none of whose days has a primary page, the scaffold creates one
/// page for every day of the year: 366 in a leap year, 365 in any other, the
/// first for the first of January and so on.
pub proof fn scaffold_fills_empty_year(year: i32, existing: Seq<Date>)
    requires
        forall|day: Date| existing.contains(day) ==> day.year != year,
    ensures
        missing_days(year as int, existing).len() == days_in_year(year as int),
        forall|i: int|
            0 <= i < days_in_year(year as int) ==> #[trigger] missing_days(
                year as int,
                existing,
            )[i] == (Date { year, ordinal: (i + 1) as u32 }),
{
    missing_among_nothing(year, existing, days_in_year(year as int) as nat);
}

/// The scaffold never creates a page for a day that has one, nor two pages
/// for one day, and every day it creates a page for is a day of the year.
pub proof fn scaffold_adds_no_duplicate(year: i32, existing: Seq<Date>)
    requires
        MIN_YEAR <= year <= MAX_YEAR,
    ensures
        forall|i: int|
            0 <= i < missing_days(year as int, existing).len() ==> {
                &&& !existing.contains(#[trigger] missing_days(year as int, existing)[i])
                &&& missing_days(year as int, existing)[i].wf()
                &&& missing_days(year as int, existing)[i].year == year
            },
        forall|i: int, j: int|
            0 <= i < j < missing_days(year as int, existing).len() ==> (#[trigger] missing_days(
                year as int,
                existing,
            )[i]) != (#[trigger] missing_days(year as int, existing)[j]),
{
    let count = days_in_year(year as int) as nat;
    let missing = missing_days(year as int, existing);
    missing_among_ascends(year, existing, count);
    assert forall|i: int| 0 <= i < missing.len() implies !existing.contains(
        #[trigger] missing[i],
    ) by {
        missing_among_holds(year, existing, count, missing[i]);
    }
}

/// Scaffolding is idempotent: once the pages of a first run are stored, a
/// second run for the same year creates no page, so the days that have a
/// primary page are the same after two runs as after one.
pub proof fn scaffold_is_idempotent(year: i32, existing: Seq<Date>)
    ensures
        missing_days(year as int, existing + missing_days(year as int, existing)).len() == 0,
        existing + missing_days(year as int, existing) + missing_days(
            year as int,
            existing + missing_days(year as int, existing),
        ) =~= existing + missing_days(year as int, existing),
{
    let count = days_in_year(year as int) as nat;
    let created = missing_days(year as int, existing);
    let stored = existing + created;
    assert forall|ordinal: u32| 1 <= ordinal <= count implies stored.contains(
        #[trigger] year_day(year, ordinal),
    ) by {
        let day = Date { year, ordinal };
        missing_among_holds(year, existing, count, day);
        if existing.contains(day) {
            let i = choose|i: int| 0 <= i < existing.len() && existing[i] == day;
            assert(stored[i] == day);
        } else {
            let i = choose|i: int| 0 <= i < created.len() && created[i] == day;
            assert(stored[existing.len() + i] == day);
        }
    }
    missing_among_everything(year, stored, count);
}

} // verus!
