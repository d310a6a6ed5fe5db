//! Habit logs and the figures derived from a window of them: the current
//! streak, the completion rate, the consistency score and the heatmap.

use vstd::prelude::*;
use vstd::string::*;

use crate::calendar::{date_of_text, parse_date, today_utc, Date};
use crate::error::AppError;
use crate::fraction::Fraction;
use crate::text::copy_text;

verus! {

/// The outcome recorded for a habit on one day.
#[derive(Clone, Copy, Debug, PartialEq, Eq, Structural)]
pub enum LogStatus {
    Completed,
    Partial,
    Skipped,
    Failed,
}

impl LogStatus {
    /// The status that a stored label stands for.
    pub open spec fn of_label(label: Seq<char>) -> Option<LogStatus> {
        if label == "completed"@ {
            Some(LogStatus::Completed)
        } else if label == "partial"@ {
            Some(LogStatus::Partial)
        } else if label == "skipped"@ {
            Some(LogStatus::Skipped)
        } else if label == "failed"@ {
            Some(LogStatus::Failed)
        } else {
            None
        }
    }

    /// Reads a status from its stored label; `None` for any other text.
    pub fn parse(label: &String) -> (status: Option<LogStatus>)
        ensures
            status == LogStatus::of_label(label@),
    {
        if *label == String::from_str("completed") {
            Some(LogStatus::Completed)
        } else if *label == String::from_str("partial") {
            Some(LogStatus::Partial)
        } else if *label == String::from_str("skipped") {
            Some(LogStatus::Skipped)
        } else if *label == String::from_str("failed") {
            Some(LogStatus::Failed)
        } else {
            None
        }
    }
}

/// One habit's record for one calendar day.
#[derive(Clone, Debug, PartialEq, Eq)]
pub struct HabitLog {
    pub log_id: String,
    pub habit_id: String,
    pub log_date: Date,
    pub logged_at: i64,
    pub status: LogStatus,
    pub note: Option<String>,
    pub mood: Option<String>,
    pub energy_level: Option<i32>,
    pub context: Option<String>,
    pub is_manual: bool,
    pub source: Option<String>,
    pub created_at: i64,
    pub updated_at: i64,
}

/// A habit log as the store holds it: the day and the status are texts, and
/// the manual flag is a number.
#[derive(Clone, Debug, PartialEq, Eq)]
pub struct HabitLogRow {
    pub log_id: String,
    pub habit_id: String,
    pub log_date: String,
    pub logged_at: i64,
    pub status: String,
    pub note: Option<String>,
    pub mood: Option<String>,
    pub energy_level: Option<i32>,
    pub context: Option<String>,
    pub is_manual: i32,
    pub source: Option<String>,
    pub created_at: i64,
    pub updated_at: i64,
}

/// Why a stored row is refused, if it is: its day is not read as a date, or
/// else its status is none of the four labels.
pub open spec fn row_refusal(row: HabitLogRow) -> Option<Seq<char>> {
    if date_of_text(row.log_date@) is None {
        Some("Invalid date"@)
    } else if LogStatus::of_label(row.status@) is None {
        Some("Invalid habit log status: "@ + row.status@)
    } else {
        None
    }
}

/// `log` is what the stored row stands for: the day and the status read from
/// their texts, the manual flag set where the number is not zero, and every
/// other field as it is.
pub open spec fn is_log_of_row(log: HabitLog, row: HabitLogRow) -> bool {
    &&& date_of_text(row.log_date@) == Some(log.log_date)
    &&& LogStatus::of_label(row.status@) == Some(log.status)
    &&& log.is_manual == (row.is_manual != 0)
    &&& log.log_id == row.log_id
    &&& log.habit_id == row.habit_id
    &&& log.logged_at == row.logged_at
    &&& log.note == row.note
    &&& log.mood == row.mood
    &&& log.energy_level == row.energy_level
    &&& log.context == row.context
    &&& log.source == row.source
    &&& log.created_at == row.created_at
    &&& log.updated_at == row.updated_at
}

/// Reads a habit log from a stored row. A row whose day or status is not
/// read is a validation error.
pub fn habit_log_from_row(row: &HabitLogRow) -> (read: Result<HabitLog, AppError>)
    ensures
        match read {
            Ok(log) => row_refusal(*row) is None && is_log_of_row(log, *row) && log.log_date.wf(),
            Err(error) => {
                &&& row_refusal(*row) matches Some(text)
                &&& error matches AppError::Validation(detail) && detail@ == row_refusal(
                    *row,
                ).unwrap()
            },
        },
{
    let date = match parse_date(row.log_date.as_str()) {
        Ok(date) => date,
        Err(error) => {
            return Err(error);
        },
    };
    let status = match LogStatus::parse(&row.status) {
        Some(status) => status,
        None => {
            return Err(
                AppError::Validation(
                    String::from_str("Invalid habit log status: ").concat(row.status.as_str()),
                ),
            );
        },
    };
    Ok(
        HabitLog {
            log_id: row.log_id.clone(),
            habit_id: row.habit_id.clone(),
            log_date: date,
            logged_at: row.logged_at,
            status,
            note: copy_text(&row.note),
            mood: copy_text(&row.mood),
            energy_level: row.energy_level,
            context: copy_text(&row.context),
            is_manual: row.is_manual != 0,
            source: copy_text(&row.source),
            created_at: row.created_at,
            updated_at: row.updated_at,
        },
    )
}

/// Reads the habit logs of a window from their stored rows, in the rows'
/// order. The first row that is refused fails the whole read.
pub fn habit_logs_from_rows(rows: &Vec<HabitLogRow>) -> (read: Result<Vec<HabitLog>, AppError>)
    ensures
        match read {
            Ok(logs) => {
                &&& logs@.len() == rows@.len()
                &&& forall|i: int|
                    0 <= i < rows@.len() ==> row_refusal(#[trigger] rows@[i]) is None
                        && is_log_of_row(logs@[i], rows@[i]) && logs@[i].log_date.wf()
            },
            Err(error) => exists|i: int|
                {
                    &&& 0 <= i < rows@.len()
                    &&& row_refusal(#[trigger] rows@[i]) is Some
                    &&& error matches AppError::Validation(detail) && detail@ == row_refusal(
                        rows@[i],
                    ).unwrap()
                    &&& forall|j: int| 0 <= j < i ==> row_refusal(#[trigger] rows@[j]) is None
                },
        },
{
    let mut logs: Vec<HabitLog> = Vec::new();
    let mut index: usize = 0;
    while index < rows.len()
        invariant
            index <= rows.len(),
            logs@.len() == index,
            forall|i: int|
                0 <= i < index ==> row_refusal(#[trigger] rows@[i]) is None && is_log_of_row(
                    logs@[i],
                    rows@[i],
                ) && logs@[i].log_date.wf(),
        decreases rows.len() - index,
    {
        match habit_log_from_row(&rows[index]) {
            Ok(log) => {
                logs.push(log);
            },
            Err(error) => {
                proof {
                    assert(row_refusal(rows@[index as int]) is Some);
                }
                return Err(error);
            },
        }
        index = index + 1;
    }
    Ok(logs)
}

/// One sample of the heatmap: a day, whether it counts, and how strongly.
#[derive(Clone, Copy, Debug, PartialEq, Eq, Structural)]
pub struct HeatmapDay {
    pub date: Date,
    pub count: i32,
    pub intensity: Fraction,
}

/// The figures derived from one habit's logs over a window of days.
#[derive(Clone, Debug, PartialEq, Eq)]
pub struct HabitAnalytics {
    pub current_streak: usize,
    pub consistency_score: Fraction,
    pub completion_rate: Fraction,
    pub heatmap_data: Vec<HeatmapDay>,
}

/// The length of the run of completed days that ends with `logs`' last entry,
/// where that entry is for the day `as_of`, the one before it for the day
/// before, and so on. The run ends at the first entry that is for another day
/// or is not completed.
pub open spec fn streak_ending(logs: Seq<HabitLog>, as_of: Option<Date>) -> nat
    decreases logs.len(),
{
    if logs.len() == 0 {
        0
    } else {
        match as_of {
            Some(day) => if logs.last().log_date == day && logs.last().status
                == LogStatus::Completed {
                1 + streak_ending(logs.drop_last(), day.previous())
            } else {
                0
            },
            None => 0,
        }
    }
}

/// The number of logs whose status is completed.
pub open spec fn completed_count(logs: Seq<HabitLog>) -> nat
    decreases logs.len(),
{
    if logs.len() == 0 {
        0
    } else {
        completed_count(logs.drop_last()) + if logs.last().status == LogStatus::Completed {
            1nat
        } else {
            0nat
        }
    }
}

/// The share of completed logs: zero over one for an empty window.
pub open spec fn rate_of(logs: Seq<HabitLog>) -> Fraction {
    if logs.len() == 0 {
        Fraction { numerator: 0, denominator: 1 }
    } else {
        Fraction { numerator: completed_count(logs) as u128, denominator: logs.len() as u128 }
    }
}

/// The completion rate times one hundred.
pub open spec fn score_of(logs: Seq<HabitLog>) -> Fraction {
    if logs.len() == 0 {
        Fraction { numerator: 0, denominator: 1 }
    } else {
        Fraction {
            numerator: (100 * completed_count(logs)) as u128,
            denominator: logs.len() as u128,
        }
    }
}

/// The heatmap sample of one log: a completed day counts once at full
/// intensity, a partial day does not count and has half intensity, any other
/// day does not count and has none.
pub open spec fn heat_of(log: HabitLog) -> HeatmapDay {
    match log.status {
        LogStatus::Completed => HeatmapDay {
            date: log.log_date,
            count: 1,
            intensity: Fraction { numerator: 1, denominator: 1 },
        },
        LogStatus::Partial => HeatmapDay {
            date: log.log_date,
            count: 0,
            intensity: Fraction { numerator: 1, denominator: 2 },
        },
        _ => HeatmapDay {
            date: log.log_date,
            count: 0,
            intensity: Fraction { numerator: 0, denominator: 1 },
        },
    }
}

/// No more logs are completed than there are logs.
pub proof fn completed_count_bounded(logs: Seq<HabitLog>)
    ensures
        completed_count(logs) <= logs.len(),
    decreases logs.len(),
{
    if logs.len() > 0 {
        completed_count_bounded(logs.drop_last());
    }
}

/// The completion rate of any window lies between zero and one, and that of
/// an empty window is exactly zero; the consistency score lies between zero
/// and one hundred, and is the rate times one hundred.
pub proof fn rate_and_score_bounded(logs: Seq<HabitLog>)
    requires
        logs.len() <= usize::MAX,
    ensures
        rate_of(logs).wf(),
        rate_of(logs).at_most(1),
        logs.len() == 0 ==> rate_of(logs).is_zero(),
        score_of(logs).wf(),
        score_of(logs).at_most(100),
        score_of(logs).numerator == 100 * rate_of(logs).numerator,
        score_of(logs).denominator == rate_of(logs).denominator,
{
    completed_count_bounded(logs);
}

/// A streak is no longer than the window it is read from.
pub proof fn streak_bounded(logs: Seq<HabitLog>, as_of: Option<Date>)
    ensures
        streak_ending(logs, as_of) <= logs.len(),
    decreases logs.len(),
{
    if logs.len() > 0 {
        if let Some(day) = as_of {
            streak_bounded(logs.drop_last(), day.previous());
        }
    }
}

/// The day that lies `steps` days before `day`, where the supported range
/// holds it.
pub open spec fn days_before(day: Option<Date>, steps: nat) -> Option<Date>
    decreases steps,
{
    if steps == 0 {
        day
    } else {
        match day {
            Some(d) => days_before(d.previous(), (steps - 1) as nat),
            None => None,
        }
    }
}

/// The last `length` logs are completed and are for the `length` days that
/// end on `as_of`, one log for each day.
pub open spec fn is_completed_run(logs: Seq<HabitLog>, as_of: Option<Date>, length: nat) -> bool {
    &&& length <= logs.len()
    &&& forall|i: int|
        logs.len() - length <= i < logs.len() ==> {
            &&& (#[trigger] logs[i]).status == LogStatus::Completed
            &&& days_before(as_of, (logs.len() - 1 - i) as nat) == Some(logs[i].log_date)
        }
}

/// The log just before the last `length` logs is completed and is for the
/// day just before the `length` days that end on `as_of`.
pub open spec fn run_goes_on(logs: Seq<HabitLog>, as_of: Option<Date>, length: nat) -> bool {
    &&& length < logs.len()
    &&& logs[logs.len() - 1 - length].status == LogStatus::Completed
    &&& days_before(as_of, length) == Some(logs[logs.len() - 1 - length].log_date)
}

/// The streak is the length of the longest run of completed logs for
/// consecutive days that ends with the last log on the day `as_of`: where
/// the last `length` logs are such a run and the log before them does not
/// continue it, the streak is `length`.
pub proof fn streak_is_longest_run(logs: Seq<HabitLog>, as_of: Option<Date>, length: nat)
    requires
        is_completed_run(logs, as_of, length),
        !run_goes_on(logs, as_of, length),
    ensures
        streak_ending(logs, as_of) == length,
    decreases length,
{
    if length > 0 {
        let last = logs.last();
        assert(days_before(as_of, 0) == Some(last.log_date));
        let day = as_of.unwrap();
        let rest = logs.drop_last();
        let before = day.previous();
        assert forall|i: int| rest.len() - (length - 1) <= i < rest.len() implies {
            &&& (#[trigger] rest[i]).status == LogStatus::Completed
            &&& days_before(before, (rest.len() - 1 - i) as nat) == Some(rest[i].log_date)
        } by {
            assert(rest[i] == logs[i]);
            assert(days_before(as_of, (logs.len() - 1 - i) as nat) == days_before(
                before,
                (rest.len() - 1 - i) as nat,
            ));
        }
        if length - 1 < rest.len() {
            assert(rest[rest.len() - 1 - (length - 1)] == logs[logs.len() - 1 - length]);
            assert(days_before(as_of, length) == days_before(before, (length - 1) as nat));
        }
        streak_is_longest_run(rest, before, (length - 1) as nat);
    }
}

/// Some log of the window is for the day `day` and is completed.
pub open spec fn has_completed_log(logs: Seq<HabitLog>, day: Date) -> bool {
    exists|i: int|
        0 <= i < logs.len() && (#[trigger] logs[i]).log_date == day && logs[i].status
            == LogStatus::Completed
}

/// The window is in the order of the calendar with at most one log for a
/// day, every log is for a day that exists, and none is for a day after
/// `as_of`.
pub open spec fn is_daily_window(logs: Seq<HabitLog>, as_of: Date) -> bool {
    &&& as_of.wf()
    &&& forall|i: int| 0 <= i < logs.len() ==> (#[trigger] logs[i]).log_date.wf()
    &&& forall|i: int, j: int|
        0 <= i < j < logs.len() ==> (#[trigger] logs[i]).log_date.precedes(
            (#[trigger] logs[j]).log_date,
        )
    &&& forall|i: int| 0 <= i < logs.len() ==> !as_of.precedes((#[trigger] logs[i]).log_date)
}

/// Going back from a day never arrives at a later day.
proof fn days_before_not_later(day: Date, steps: nat)
    requires
        day.wf(),
    ensures
        days_before(Some(day), steps) matches Some(earlier) ==> earlier.wf() && !day.precedes(
            earlier,
        ),
        steps > 0 ==> (days_before(Some(day), steps) matches Some(earlier) ==> earlier.precedes(
            day,
        )),
    decreases steps,
{
    if steps > 0 {
        if let Some(before) = day.previous() {
            days_before_not_later(before, (steps - 1) as nat);
        }
    }
}

/// What the streak means for a window in the order of the calendar: it is
/// the number of consecutive days, ending on `as_of`, that each have a
/// completed log. Each of the `streak` days up to `as_of` has one, and the
/// day before them has none, or lies outside the calendar's range.
pub proof fn streak_counts_consecutive_days(logs: Seq<HabitLog>, as_of: Date)
    requires
        is_daily_window(logs, as_of),
    ensures
        forall|back: nat|
            back < streak_ending(logs, Some(as_of)) ==> (#[trigger] days_before(
                Some(as_of),
                back,
            ) matches Some(day) && has_completed_log(logs, day)),
        !(days_before(Some(as_of), streak_ending(logs, Some(as_of))) matches Some(day)
            && has_completed_log(logs, day)),
    decreases logs.len(),
{
    let streak = streak_ending(logs, Some(as_of));
    if logs.len() > 0 {
        let last = logs.last();
        let rest = logs.drop_last();
        assert(last == logs[logs.len() - 1]);
        if last.log_date == as_of && last.status == LogStatus::Completed {
            assert(has_completed_log(logs, as_of));
            match as_of.previous() {
                Some(before) => {
                    assert forall|i: int| 0 <= i < rest.len() implies !before.precedes(
                        (#[trigger] rest[i]).log_date,
                    ) by {
                        assert(rest[i] == logs[i]);
                        assert(logs[i].log_date.precedes(last.log_date));
                    }
                    assert(is_daily_window(rest, before)) by {
                        assert forall|i: int| 0 <= i < rest.len() implies (#[trigger] rest[i])
                            .log_date.wf() by {
                            assert(rest[i] == logs[i]);
                        }
                        assert forall|i: int, j: int| 0 <= i < j < rest.len() implies (#[trigger] rest[i])
                            .log_date.precedes((#[trigger] rest[j]).log_date) by {
                            assert(rest[i] == logs[i]);
                            assert(rest[j] == logs[j]);
                        }
                    }
                    streak_counts_consecutive_days(rest, before);
                    let inner = streak_ending(rest, Some(before));
                    assert(streak == inner + 1);
                    assert forall|back: nat| back < streak implies (#[trigger] days_before(
                        Some(as_of),
                        back,
                    ) matches Some(day) && has_completed_log(logs, day)) by {
                        if back > 0 {
                            let earlier = (back - 1) as nat;
                            assert(days_before(Some(as_of), back) == days_before(
                                Some(before),
                                earlier,
                            ));
                            let day = days_before(Some(before), earlier).unwrap();
                            let i = choose|i: int|
                                0 <= i < rest.len() && (#[trigger] rest[i]).log_date == day
                                    && rest[i].status == LogStatus::Completed;
                            assert(logs[i] == rest[i]);
                        }
                    }
                    assert(days_before(Some(as_of), streak) == days_before(Some(before), inner));
                    if let Some(day) = days_before(Some(before), inner) {
                        days_before_not_later(before, inner);
                        if has_completed_log(logs, day) {
                            let i = choose|i: int|
                                0 <= i < logs.len() && (#[trigger] logs[i]).log_date == day
                                    && logs[i].status == LogStatus::Completed;
                            if i < rest.len() {
                                assert(rest[i] == logs[i]);
                                assert(has_completed_log(rest, day));
                            }
                        }
                    }
                },
                None => {
                    assert(streak_ending(rest, None) == 0);
                    assert(streak == 1);
                    assert(days_before(Some(as_of), 1) == days_before(None, 0));
                },
            }
        } else {
            assert(streak == 0);
            if has_completed_log(logs, as_of) {
                let i = choose|i: int|
                    0 <= i < logs.len() && (#[trigger] logs[i]).log_date == as_of && logs[i].status
                        == LogStatus::Completed;
                if i < logs.len() - 1 {
                    assert(logs[i].log_date.precedes(last.log_date));
                }
            }
        }
    }
}

/// A streak has to reach the reference day: without a completed log for
/// `as_of` at the end of the window, it is zero.
pub proof fn streak_needs_reference_day(logs: Seq<HabitLog>, as_of: Date)
    requires
        logs.len() == 0 || logs.last().log_date != as_of || logs.last().status
            != LogStatus::Completed,
    ensures
        streak_ending(logs, Some(as_of)) == 0,
{
}

/// The current streak: the number of consecutive days, ending on `as_of`,
/// each with a completed log. The logs are read from the last one backwards.
pub fn current_streak(logs: &Vec<HabitLog>, as_of: Date) -> (streak: usize)
    requires
        as_of.wf(),
    ensures
        streak == streak_ending(logs@, Some(as_of)),
{
    let mut streak: usize = 0;
    let mut expected: Option<Date> = Some(as_of);
    let mut remaining: usize = logs.len();
    let mut alive: bool = true;
    proof {
        assert(logs@.take(remaining as int) =~= logs@);
    }
    while alive && remaining > 0
        invariant
            remaining <= logs.len(),
            streak + remaining <= logs.len(),
            expected matches Some(day) ==> day.wf(),
            streak_ending(logs@, Some(as_of)) == streak + streak_ending(
                logs@.take(remaining as int),
                expected,
            ),
            !alive ==> streak_ending(logs@.take(remaining as int), expected) == 0,
        decreases remaining + if alive { 1int } else { 0int },
    {
        let ghost window = logs@.take(remaining as int);
        proof {
            assert(window.last() == logs@[remaining - 1]);
            assert(window.drop_last() =~= logs@.take(remaining - 1));
        }
        match expected {
            Some(day) => {
                let log = &logs[remaining - 1];
                if log.log_date == day && log.status == LogStatus::Completed {
                    streak = streak + 1;
                    expected = day.pred();
                    remaining = remaining - 1;
                } else {
                    alive = false;
                }
            },
            None => {
                alive = false;
            },
        }
    }
    streak
}

/// The completion rate: completed logs over all logs, and exactly zero for
/// an empty window. It never leaves the range from zero to one.
pub fn completion_rate(logs: &Vec<HabitLog>) -> (rate: Fraction)
    ensures
        rate == rate_of(logs@),
        rate.wf(),
        rate.at_most(1),
        logs@.len() == 0 ==> rate.is_zero(),
{
    let completed: usize = count_completed(logs);
    if logs.len() == 0 {
        Fraction::zero()
    } else {
        Fraction { numerator: completed as u128, denominator: logs.len() as u128 }
    }
}

/// The consistency score: the completion rate times one hundred. It never
/// leaves the range from zero to one hundred.
pub fn consistency_score(logs: &Vec<HabitLog>) -> (score: Fraction)
    ensures
        score == score_of(logs@),
        score.wf(),
        score.at_most(100),
        score.numerator == 100 * rate_of(logs@).numerator,
        score.denominator == rate_of(logs@).denominator,
{
    let completed: usize = count_completed(logs);
    if logs.len() == 0 {
        Fraction::zero()
    } else {
        Fraction { numerator: 100 * (completed as u128), denominator: logs.len() as u128 }
    }
}

/// Counts the completed logs.
fn count_completed(logs: &Vec<HabitLog>) -> (completed: usize)
    ensures
        completed == completed_count(logs@),
        completed <= logs@.len(),
{
    let mut completed: usize = 0;
    let mut index: usize = 0;
    while index < logs.len()
        invariant
            index <= logs.len(),
            completed <= index,
            completed == completed_count(logs@.take(index as int)),
        decreases logs.len() - index,
    {
        proof {
            let next = logs@.take(index + 1);
            assert(next.drop_last() =~= logs@.take(index as int));
            assert(next.last() == logs@[index as int]);
        }
        if logs[index].status == LogStatus::Completed {
            completed = completed + 1;
        }
        index = index + 1;
    }
    proof {
        assert(logs@.take(index as int) =~= logs@);
    }
    completed
}

/// The heatmap: one sample per log, in the order of the logs.
pub fn heatmap(logs: &Vec<HabitLog>) -> (days: Vec<HeatmapDay>)
    ensures
        days@.len() == logs@.len(),
        forall|i: int| 0 <= i < logs@.len() ==> days@[i] == heat_of(#[trigger] logs@[i]),
{
    let mut days: Vec<HeatmapDay> = Vec::new();
    let mut index: usize = 0;
    while index < logs.len()
        invariant
            index <= logs.len(),
            days@.len() == index,
            forall|i: int| 0 <= i < index ==> days@[i] == heat_of(#[trigger] logs@[i]),
        decreases logs.len() - index,
    {
        let log = &logs[index];
        let sample = match log.status {
            LogStatus::Completed => HeatmapDay {
                date: log.log_date,
                count: 1,
                intensity: Fraction { numerator: 1, denominator: 1 },
            },
            LogStatus::Partial => HeatmapDay {
                date: log.log_date,
                count: 0,
                intensity: Fraction { numerator: 1, denominator: 2 },
            },
            _ => HeatmapDay { date: log.log_date, count: 0, intensity: Fraction::zero() },
        };
        days.push(sample);
        index = index + 1;
    }
    days
}

/// All four figures for a window of logs, the streak being read as of the
/// given day.
pub fn habit_analytics(logs: &Vec<HabitLog>, as_of: Date) -> (analytics: HabitAnalytics)
    requires
        as_of.wf(),
    ensures
        analytics.current_streak == streak_ending(logs@, Some(as_of)),
        analytics.completion_rate == rate_of(logs@),
        analytics.consistency_score == score_of(logs@),
        analytics.heatmap_data@.len() == logs@.len(),
        forall|i: int|
            0 <= i < logs@.len() ==> analytics.heatmap_data@[i] == heat_of(#[trigger] logs@[i]),
{
    HabitAnalytics {
        current_streak: current_streak(logs, as_of),
        consistency_score: consistency_score(logs),
        completion_rate: completion_rate(logs),
        heatmap_data: heatmap(logs),
    }
}

/// All four figures for a window of logs, the streak being read as of the
/// clock's current day. Which day that is depends on the clock; the other
/// three figures do not.
pub fn get_habit_analytics(logs: &Vec<HabitLog>) -> (analytics: HabitAnalytics)
    ensures
        exists|as_of: Date| #[trigger]
            as_of.wf() && analytics.current_streak == streak_ending(logs@, Some(as_of)),
        analytics.current_streak <= logs@.len(),
        analytics.completion_rate == rate_of(logs@),
        analytics.consistency_score == score_of(logs@),
        analytics.heatmap_data@.len() == logs@.len(),
        forall|i: int|
            0 <= i < logs@.len() ==> analytics.heatmap_data@[i] == heat_of(#[trigger] logs@[i]),
{
    let today: Date = today_utc();
    proof {
        streak_bounded(logs@, Some(today));
    }
    habit_analytics(logs, today)
}

} // verus!
