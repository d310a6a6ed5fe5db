use nocturne_core::calendar::Date;
use nocturne_core::error::{not_found, AppError};
use nocturne_core::habits::{habit_log_from_row, habit_logs_from_rows, HabitLogRow, LogStatus};
use nocturne_core::records::{
    goal_slug, insert_goal, insert_habit, insert_job_application, job_slug,
};
use nocturne_core::validation::{CreateGoalInput, CreateHabitInput, CreateJobInput};

fn row(date: &str, status: &str, manual: i32) -> HabitLogRow {
    HabitLogRow {
        log_id: "log-1".to_string(),
        habit_id: "habit-1".to_string(),
        log_date: date.to_string(),
        logged_at: 10,
        status: status.to_string(),
        note: Some("note".to_string()),
        mood: None,
        energy_level: Some(3),
        context: Some("home".to_string()),
        is_manual: manual,
        source: None,
        created_at: 11,
        updated_at: 12,
    }
}

#[test]
fn goal_slug_is_lower_case_with_hyphens_and_eight_characters_of_the_id() {
    assert_eq!(
        goal_slug("Run A Marathon", "0123abcd-89ab-4def-8123-456789abcdef"),
        "run-a-marathon-0123abcd"
    );
    assert_eq!(goal_slug("ÉTÉ  2026", "abcdefgh"), "été--2026-abcdefgh");
    assert_eq!(goal_slug("", "abc"), "-abc");
}

#[test]
fn job_slug_joins_company_title_and_id() {
    assert_eq!(
        job_slug("Acme Corp", "Staff Engineer", "0123abcd-89ab-4def-8123-456789abcdef"),
        "acme-corp-staff-engineer-0123abcd"
    );
    assert_eq!(job_slug("A", "B", "123456789"), "a-b-12345678");
}

#[test]
fn insert_habit_keeps_the_fields_of_the_input() {
    let input = CreateHabitInput {
        habit_name: "Read".to_string(),
        habit_type: "boolean".to_string(),
        habit_description: Some("Ten pages".to_string()),
        habit_icon_emoji: None,
        habit_color: Some("#fff".to_string()),
        schedule_type: "daily".to_string(),
    };
    let new = insert_habit(&input);
    assert_eq!(new.habit_name, "Read");
    assert_eq!(new.habit_type, "boolean");
    assert_eq!(new.habit_description, Some("Ten pages".to_string()));
    assert_eq!(new.habit_icon_emoji, None);
    assert_eq!(new.habit_color, Some("#fff".to_string()));
    assert_eq!(new.schedule_type, "daily");
    assert_eq!(new.created_at, new.updated_at);
    assert_ne!(new.habit_id, insert_habit(&input).habit_id);
}

#[test]
fn insert_goal_makes_a_slug_from_the_title() {
    let input = CreateGoalInput {
        goal_title: "Learn Verus".to_string(),
        goal_type: "learning".to_string(),
        goal_category: None,
        goal_description: Some("Proofs".to_string()),
        goal_target_date: Some("2027-01-01".to_string()),
    };
    let new = insert_goal(&input);
    assert_eq!(new.goal_title, "Learn Verus");
    assert_eq!(new.goal_type, "learning");
    assert_eq!(new.goal_category, None);
    assert_eq!(new.goal_description, Some("Proofs".to_string()));
    assert_eq!(new.goal_target_date, Some("2027-01-01".to_string()));
    assert!(new.goal_slug.starts_with("learn-verus-"));
    assert_eq!(new.goal_slug.len(), "learn-verus-".len() + 8);
    assert_eq!(new.created_at, new.updated_at);
    assert!(Date::from_ordinal(new.goal_created_date.year, new.goal_created_date.ordinal).is_some());
}

#[test]
fn insert_job_application_makes_a_slug_from_company_and_title() {
    let input = CreateJobInput {
        job_title: "Staff Engineer".to_string(),
        company_name: "Acme Corp".to_string(),
        job_level: Some("staff".to_string()),
        job_employment_type: None,
        job_work_mode: Some("remote".to_string()),
        job_posting_url: None,
    };
    let new = insert_job_application(&input);
    assert_eq!(new.job_title, "Staff Engineer");
    assert_eq!(new.company_name, "Acme Corp");
    assert_eq!(new.job_level, Some("staff".to_string()));
    assert_eq!(new.job_work_mode, Some("remote".to_string()));
    assert!(new.job_application_slug.starts_with("acme-corp-staff-engineer-"));
    assert_eq!(new.job_application_slug.len(), "acme-corp-staff-engineer-".len() + 8);
    assert_eq!(new.created_at, new.updated_at);
}

#[test]
fn habit_log_is_read_from_its_row() {
    let log = habit_log_from_row(&row("2026-03-05", "partial", 1)).unwrap();
    assert_eq!(log.log_date, Date::from_ymd(2026, 3, 5).unwrap());
    assert_eq!(log.status, LogStatus::Partial);
    assert!(log.is_manual);
    assert_eq!(log.log_id, "log-1");
    assert_eq!(log.habit_id, "habit-1");
    assert_eq!(log.logged_at, 10);
    assert_eq!(log.note, Some("note".to_string()));
    assert_eq!(log.mood, None);
    assert_eq!(log.energy_level, Some(3));
    assert_eq!(log.context, Some("home".to_string()));
    assert_eq!(log.source, None);
    assert_eq!(log.created_at, 11);
    assert_eq!(log.updated_at, 12);
    assert!(!habit_log_from_row(&row("2026-03-05", "completed", 0)).unwrap().is_manual);
    assert!(habit_log_from_row(&row("2026-03-05", "completed", -1)).unwrap().is_manual);
}

#[test]
fn habit_log_row_with_a_bad_day_or_status_is_refused() {
    assert_eq!(
        habit_log_from_row(&row("March 5", "completed", 1)),
        Err(AppError::Validation("Invalid date".to_string()))
    );
    assert_eq!(
        habit_log_from_row(&row("2026-03-05", "done", 1)),
        Err(AppError::Validation("Invalid habit log status: done".to_string()))
    );
    assert_eq!(
        habit_log_from_row(&row("March 5", "done", 1)),
        Err(AppError::Validation("Invalid date".to_string()))
    );
}

#[test]
fn habit_logs_are_read_in_the_order_of_their_rows() {
    let rows =
        vec![row("2026-03-04", "completed", 1), row("2026-03-05", "skipped", 0), row("2026-03-06", "failed", 1)];
    let logs = habit_logs_from_rows(&rows).unwrap();
    assert_eq!(logs.len(), 3);
    assert_eq!(logs[0].log_date, Date::from_ymd(2026, 3, 4).unwrap());
    assert_eq!(logs[1].status, LogStatus::Skipped);
    assert_eq!(logs[2].status, LogStatus::Failed);
    assert_eq!(habit_logs_from_rows(&Vec::new()), Ok(Vec::new()));
}

#[test]
fn habit_logs_fail_on_the_first_refused_row() {
    let rows =
        vec![row("2026-03-04", "completed", 1), row("2026-03-05", "later", 0), row("nope", "failed", 1)];
    assert_eq!(
        habit_logs_from_rows(&rows),
        Err(AppError::Validation("Invalid habit log status: later".to_string()))
    );
}

#[test]
fn not_found_names_the_record_and_its_identifier() {
    assert_eq!(not_found("Habit", "42"), AppError::NotFound("Habit 42 not found".to_string()));
    assert_eq!(
        not_found("Diary entry", "abc").message(),
        "Not found: Diary entry abc not found"
    );
}
