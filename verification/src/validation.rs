//! What a new habit, goal or job application must satisfy before it is
//! stored.

use vstd::prelude::*;
use vstd::string::*;

use crate::error::{verdict_is, AppError};
use crate::text::{is_blank, is_blank_text, is_word};

verus! {

/// What a caller hands in to create a habit.
#[derive(Clone, Debug, PartialEq, Eq)]
pub struct CreateHabitInput {
    pub habit_name: String,
    pub habit_type: String,
    pub habit_description: Option<String>,
    pub habit_icon_emoji: Option<String>,
    pub habit_color: Option<String>,
    pub schedule_type: String,
}

/// What a caller hands in to create a goal.
#[derive(Clone, Debug, PartialEq, Eq)]
pub struct CreateGoalInput {
    pub goal_title: String,
    pub goal_type: String,
    pub goal_category: Option<String>,
    pub goal_description: Option<String>,
    pub goal_target_date: Option<String>,
}

/// What a caller hands in to create a job application.
#[derive(Clone, Debug, PartialEq, Eq)]
pub struct CreateJobInput {
    pub job_title: String,
    pub company_name: String,
    pub job_level: Option<String>,
    pub job_employment_type: Option<String>,
    pub job_work_mode: Option<String>,
    pub job_posting_url: Option<String>,
}

/// The kinds of habit.
pub open spec fn is_habit_type(text: Seq<char>) -> bool {
    text == "boolean"@ || text == "quantitative"@ || text == "duration"@ || text == "checklist"@
}

/// The kinds of goal.
pub open spec fn is_goal_type(text: Seq<char>) -> bool {
    text == "outcome"@ || text == "process"@ || text == "performance"@ || text == "learning"@
}

/// Why a new habit is refused, if it is: its name is blank, or its type is
/// none of the four kinds.
pub open spec fn habit_refusal(input: CreateHabitInput) -> Option<Seq<char>> {
    if is_blank_text(input.habit_name@) {
        Some("Habit name cannot be empty."@)
    } else if !is_habit_type(input.habit_type@) {
        Some(
            "Invalid habit type: "@ + input.habit_type@
                + ". Must be one of [\"boolean\", \"quantitative\", \"duration\", \"checklist\"]"@,
        )
    } else {
        None
    }
}

/// Why a new goal is refused, if it is: its title is blank, or its type is
/// none of the four kinds.
pub open spec fn goal_refusal(input: CreateGoalInput) -> Option<Seq<char>> {
    if is_blank_text(input.goal_title@) {
        Some("Goal title cannot be empty."@)
    } else if !is_goal_type(input.goal_type@) {
        Some(
            "Invalid goal type: "@ + input.goal_type@
                + ". Must be one of [\"outcome\", \"process\", \"performance\", \"learning\"]"@,
        )
    } else {
        None
    }
}

/// Why a new job application is refused, if it is: its title is blank, or
/// else its company's name is.
pub open spec fn job_refusal(input: CreateJobInput) -> Option<Seq<char>> {
    if is_blank_text(input.job_title@) {
        Some("Job title cannot be empty."@)
    } else if is_blank_text(input.company_name@) {
        Some("Company name cannot be empty."@)
    } else {
        None
    }
}

/// Validates a new habit: the name must not be blank and the type must be one
/// of the four kinds.
pub fn validate_create_habit(input: &CreateHabitInput) -> (verdict: Result<(), AppError>)
    ensures
        verdict_is(verdict, habit_refusal(*input)),
{
    if is_blank(input.habit_name.as_str()) {
        return Err(AppError::Validation(String::from_str("Habit name cannot be empty.")));
    }
    let known: bool = is_word(&input.habit_type, "boolean") || is_word(
        &input.habit_type,
        "quantitative",
    ) || is_word(&input.habit_type, "duration") || is_word(&input.habit_type, "checklist");
    if !known {
        let detail: String = String::from_str("Invalid habit type: ").concat(
            input.habit_type.as_str(),
        ).concat(". Must be one of [\"boolean\", \"quantitative\", \"duration\", \"checklist\"]");
        return Err(AppError::Validation(detail));
    }
    Ok(())
}

/// Validates a new goal: the title must not be blank and the type must be one
/// of the four kinds.
pub fn validate_create_goal(input: &CreateGoalInput) -> (verdict: Result<(), AppError>)
    ensures
        verdict_is(verdict, goal_refusal(*input)),
{
    if is_blank(input.goal_title.as_str()) {
        return Err(AppError::Validation(String::from_str("Goal title cannot be empty.")));
    }
    let known: bool = is_word(&input.goal_type, "outcome") || is_word(&input.goal_type, "process")
        || is_word(&input.goal_type, "performance") || is_word(&input.goal_type, "learning");
    if !known {
        let detail: String = String::from_str("Invalid goal type: ").concat(
            input.goal_type.as_str(),
        ).concat(". Must be one of [\"outcome\", \"process\", \"performance\", \"learning\"]");
        return Err(AppError::Validation(detail));
    }
    Ok(())
}

/// Validates a new job application: neither the job's title nor the
/// company's name may be blank.
pub fn validate_create_job(input: &CreateJobInput) -> (verdict: Result<(), AppError>)
    ensures
        verdict_is(verdict, job_refusal(*input)),
{
    if is_blank(input.job_title.as_str()) {
        return Err(AppError::Validation(String::from_str("Job title cannot be empty.")));
    }
    if is_blank(input.company_name.as_str()) {
        return Err(AppError::Validation(String::from_str("Company name cannot be empty.")));
    }
    Ok(())
}

} // verus!
