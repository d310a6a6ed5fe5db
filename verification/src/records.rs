//! The rows prepared for a new habit, goal or job application: the caller's
//! fields, a fresh identifier, a slug, and the clock's time.

use vstd::prelude::*;
use vstd::string::*;

use crate::calendar::{today_local, unix_now, Date};
use crate::ids::fresh_id;
use crate::text::copy_text;
use crate::validation::{CreateGoalInput, CreateHabitInput, CreateJobInput};

verus! {

/// How many characters of an identifier end a slug.
pub const SLUG_ID_LENGTH: usize = 8;

/// A habit row that is ready to be stored.
#[derive(Clone, Debug, PartialEq, Eq)]
pub struct NewHabit {
    pub habit_id: String,
    pub habit_name: String,
    pub habit_type: String,
    pub habit_description: Option<String>,
    pub habit_icon_emoji: Option<String>,
    pub habit_color: Option<String>,
    pub schedule_type: String,
    pub created_at: i64,
    pub updated_at: i64,
}

/// A goal row that is ready to be stored.
#[derive(Clone, Debug, PartialEq, Eq)]
pub struct NewGoal {
    pub goal_id: String,
    pub goal_slug: String,
    pub goal_title: String,
    pub goal_type: String,
    pub goal_category: Option<String>,
    pub goal_description: Option<String>,
    pub goal_target_date: Option<String>,
    pub goal_created_date: Date,
    pub created_at: i64,
    pub updated_at: i64,
}

/// A job application row that is ready to be stored.
#[derive(Clone, Debug, PartialEq, Eq)]
pub struct NewJobApplication {
    pub job_application_id: String,
    pub job_application_slug: String,
    pub job_title: String,
    pub company_name: String,
    pub job_level: Option<String>,
    pub job_employment_type: Option<String>,
    pub job_work_mode: Option<String>,
    pub job_posting_url: Option<String>,
    pub application_created_date: Date,
    pub created_at: i64,
    pub updated_at: i64,
}

/// The lower-case form of a text, as the standard library makes it.
pub uninterp spec fn lowercase_of(text: Seq<char>) -> Seq<char>;

/// The text with a hyphen in place of every space.
pub open spec fn dashed(text: Seq<char>) -> Seq<char> {
    Seq::new(
        text.len(),
        |i: int|
            if text[i] == ' ' {
                '-'
            } else {
                text[i]
            },
    )
}

/// The first characters of an identifier that end a slug: eight, or all of
/// them where there are fewer.
pub open spec fn id_prefix(id: Seq<char>) -> Seq<char> {
    if id.len() >= SLUG_ID_LENGTH {
        id.subrange(0, SLUG_ID_LENGTH as int)
    } else {
        id
    }
}

/// The word of a slug that a name gives: lower case, hyphens for spaces.
pub open spec fn slug_word(name: Seq<char>) -> Seq<char> {
    dashed(lowercase_of(name))
}

/// The slug of a goal: the title's word, a hyphen, and the identifier's
/// first characters.
pub open spec fn goal_slug_text(title: Seq<char>, id: Seq<char>) -> Seq<char> {
    slug_word(title) + "-"@ + id_prefix(id)
}

/// The slug of a job application: the company's word, the title's word and
/// the identifier's first characters, with hyphens between them.
pub open spec fn job_slug_text(company: Seq<char>, title: Seq<char>, id: Seq<char>) -> Seq<char> {
    slug_word(company) + "-"@ + slug_word(title) + "-"@ + id_prefix(id)
}

/// Calls `str::to_lowercase` of the standard library. Trusted: the result is
/// a function of the text alone.
#[verifier::external_body]
fn lowercase(text: &str) -> (lower: String)
    ensures
        lower@ == lowercase_of(text@),
{
    text.to_lowercase()
}

/// Calls `str::replace` of the standard library with one space as the
/// pattern and one hyphen in its place. Trusted: every space has become a
/// hyphen and every other character is as it was.
#[verifier::external_body]
fn hyphenate(text: &str) -> (hyphenated: String)
    ensures
        hyphenated@ == dashed(text@),
{
    text.replace(" ", "-")
}

/// The word of a slug that a name gives.
fn word_of(name: &str) -> (word: String)
    ensures
        word@ == slug_word(name@),
{
    let lower: String = lowercase(name);
    hyphenate(lower.as_str())
}

/// The first characters of an identifier that end a slug.
fn short_id(id: &str) -> (short: String)
    ensures
        short@ == id_prefix(id@),
{
    if id.unicode_len() >= SLUG_ID_LENGTH {
        String::from_str(id.substring_char(0, SLUG_ID_LENGTH))
    } else {
        String::from_str(id)
    }
}

/// The slug of a goal with the given title, ended by the given identifier.
pub fn goal_slug(title: &str, id: &str) -> (slug: String)
    ensures
        slug@ == goal_slug_text(title@, id@),
{
    let tail: String = short_id(id);
    word_of(title).concat("-").concat(tail.as_str())
}

/// The slug of a job application at the given company for the given title,
/// ended by the given identifier.
pub fn job_slug(company: &str, title: &str, id: &str) -> (slug: String)
    ensures
        slug@ == job_slug_text(company@, title@, id@),
{
    let second: String = word_of(title);
    let tail: String = short_id(id);
    word_of(company).concat("-").concat(second.as_str()).concat("-").concat(tail.as_str())
}

/// Prepares the row for a new habit: the caller's fields, a fresh
/// identifier, and the clock's time as both timestamps.
pub fn insert_habit(input: &CreateHabitInput) -> (row: NewHabit)
    ensures
        row.habit_name == input.habit_name,
        row.habit_type == input.habit_type,
        row.habit_description == input.habit_description,
        row.habit_icon_emoji == input.habit_icon_emoji,
        row.habit_color == input.habit_color,
        row.schedule_type == input.schedule_type,
        row.created_at == row.updated_at,
{
    let now: i64 = unix_now();
    NewHabit {
        habit_id: fresh_id(),
        habit_name: input.habit_name.clone(),
        habit_type: input.habit_type.clone(),
        habit_description: copy_text(&input.habit_description),
        habit_icon_emoji: copy_text(&input.habit_icon_emoji),
        habit_color: copy_text(&input.habit_color),
        schedule_type: input.schedule_type.clone(),
        created_at: now,
        updated_at: now,
    }
}

/// Prepares the row for a new goal: the caller's fields, a fresh identifier,
/// a slug ended by a second fresh identifier, the local day as the day of
/// creation, and the clock's time as both timestamps.
pub fn insert_goal(input: &CreateGoalInput) -> (row: NewGoal)
    ensures
        row.goal_title == input.goal_title,
        row.goal_type == input.goal_type,
        row.goal_category == input.goal_category,
        row.goal_description == input.goal_description,
        row.goal_target_date == input.goal_target_date,
        exists|id: Seq<char>| row.goal_slug@ == #[trigger] goal_slug_text(input.goal_title@, id),
        row.goal_created_date.wf(),
        row.created_at == row.updated_at,
{
    let slug_id: String = fresh_id();
    let slug: String = goal_slug(input.goal_title.as_str(), slug_id.as_str());
    let now: i64 = unix_now();
    NewGoal {
        goal_id: fresh_id(),
        goal_slug: slug,
        goal_title: input.goal_title.clone(),
        goal_type: input.goal_type.clone(),
        goal_category: copy_text(&input.goal_category),
        goal_description: copy_text(&input.goal_description),
        goal_target_date: copy_text(&input.goal_target_date),
        goal_created_date: today_local(),
        created_at: now,
        updated_at: now,
    }
}

/// Prepares the row for a new job application: the caller's fields, a fresh
/// identifier, a slug ended by a second fresh identifier, the local day as
/// the day of creation, and the clock's time as both timestamps.
pub fn insert_job_application(input: &CreateJobInput) -> (row: NewJobApplication)
    ensures
        row.job_title == input.job_title,
        row.company_name == input.company_name,
        row.job_level == input.job_level,
        row.job_employment_type == input.job_employment_type,
        row.job_work_mode == input.job_work_mode,
        row.job_posting_url == input.job_posting_url,
        exists|id: Seq<char>|
            row.job_application_slug@ == #[trigger] job_slug_text(
                input.company_name@,
                input.job_title@,
                id,
            ),
        row.application_created_date.wf(),
        row.created_at == row.updated_at,
{
    let slug_id: String = fresh_id();
    let slug: String = job_slug(
        input.company_name.as_str(),
        input.job_title.as_str(),
        slug_id.as_str(),
    );
    let now: i64 = unix_now();
    NewJobApplication {
        job_application_id: fresh_id(),
        job_application_slug: slug,
        job_title: input.job_title.clone(),
        company_name: input.company_name.clone(),
        job_level: copy_text(&input.job_level),
        job_employment_type: copy_text(&input.job_employment_type),
        job_work_mode: copy_text(&input.job_work_mode),
        job_posting_url: copy_text(&input.job_posting_url),
        application_created_date: today_local(),
        created_at: now,
        updated_at: now,
    }
}

} // verus!
