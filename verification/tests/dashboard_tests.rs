use nocturne_core::calendar::Date;
use nocturne_core::dashboard::{
    assemble_snapshot, compute_dashboard, get_dashboard, lookup_cached, CacheOutcome,
    CachedSnapshot, DashboardSnapshot, DomainCounts, Reading, CACHE_VALIDITY_SECONDS,
};

fn today() -> Date {
    Date::from_ymd(2026, 10, 27).unwrap()
}

fn counts() -> DomainCounts {
    DomainCounts {
        journal_entries_today: 1,
        habits_total: 7,
        habits_active: 5,
        goals_active: 4,
        goals_completed: 1,
        jobs_active: 9,
        jobs_interviewing: 2,
        jobs_offer: 1,
    }
}

fn snapshot_at(now: i64) -> DashboardSnapshot {
    assemble_snapshot("snapshot-1".to_string(), today(), None, now, 12, counts())
}

fn served(outcome: CacheOutcome<DashboardSnapshot>) -> Option<DashboardSnapshot> {
    match outcome {
        CacheOutcome::Hit(snapshot) => Some(snapshot),
        CacheOutcome::Miss => None,
    }
}

#[test]
fn snapshot_takes_the_figures_of_the_domains() {
    let snapshot = assemble_snapshot(
        "snapshot-1".to_string(),
        today(),
        Some("+02:00".to_string()),
        1_800_000_000,
        12,
        counts(),
    );
    assert_eq!(snapshot.dashboard_id, "snapshot-1");
    assert_eq!(snapshot.dashboard_date, today());
    assert_eq!(snapshot.dashboard_timezone, Some("+02:00".to_string()));
    assert_eq!(snapshot.dashboard_version, 1);
    assert!(snapshot.today_diary_exists);
    assert_eq!(snapshot.habits_total, 7);
    assert_eq!(snapshot.habits_total_active, 5);
    assert_eq!(snapshot.goals_total_active, 4);
    assert_eq!(snapshot.goals_completed_total, 1);
    assert_eq!(snapshot.jobs_total_active, 9);
    assert_eq!(snapshot.jobs_interviewing_count, 2);
    assert_eq!(snapshot.jobs_offer_count, 1);
    assert_eq!(snapshot.data_sources_version, "1.0");
    assert_eq!(snapshot.analytics_computation_duration_ms, 12);
}

#[test]
fn snapshot_without_a_journal_entry_today() {
    let mut nothing = counts();
    nothing.journal_entries_today = 0;
    let snapshot = assemble_snapshot("s".to_string(), today(), None, 1_800_000_000, 0, nothing);
    assert!(!snapshot.today_diary_exists);
}

#[test]
fn snapshot_deadline_is_one_hour_after_generation() {
    let snapshot = snapshot_at(1_800_000_000);
    assert_eq!(snapshot.cache_generated_at, 1_800_000_000);
    assert_eq!(snapshot.cache_valid_until, 1_800_003_600);
    assert_eq!(CACHE_VALIDITY_SECONDS, 3600);
    assert!(snapshot.cache_valid_until > snapshot.cache_generated_at);
    let latest = snapshot_at(i64::MAX - 3600);
    assert_eq!(latest.cache_valid_until, i64::MAX);
}

#[test]
fn snapshot_marks_unwired_figures_as_pending() {
    let snapshot = snapshot_at(1_800_000_000);
    assert_eq!(snapshot.overall_productivity_score, Reading::Pending);
    assert_eq!(snapshot.overall_consistency_index, Reading::Pending);
    assert_eq!(snapshot.overall_momentum_score, Reading::Pending);
    assert_eq!(snapshot.burnout_risk_global, Reading::Pending);
    assert_eq!(snapshot.stress_load_global, Reading::Pending);
    assert_eq!(snapshot.confidence_global, Reading::Pending);
    assert_eq!(snapshot.system_health_status, Reading::Pending);
    assert_eq!(snapshot.today_diary_word_count, Reading::Pending);
    assert_eq!(snapshot.today_habits_completed, Reading::Pending);
    assert_eq!(snapshot.today_habit_completion_rate, Reading::Pending);
    assert_eq!(snapshot.goals_on_track_count, Reading::Pending);
    assert_eq!(snapshot.goals_at_risk_count, Reading::Pending);
    assert_eq!(snapshot.goals_avg_progress_percentage, Reading::Pending);
    assert_eq!(snapshot.jobs_rejected_count, Reading::Pending);
    assert_eq!(snapshot.jobs_pipeline_velocity, Reading::Pending);
    assert_eq!(snapshot.overdue_goals_flag, Reading::Pending);
    assert_eq!(snapshot.habit_streak_break_risk_flag, Reading::Pending);
    assert_eq!(snapshot.diary_gap_warning_flag, Reading::Pending);
    assert_eq!(snapshot.job_pipeline_stall_flag, Reading::Pending);
    assert_eq!(snapshot.critical_alert_count, Reading::Pending);
    assert_eq!(snapshot.warning_alert_count, Reading::Pending);
}

#[test]
fn cached_snapshot_is_served_unchanged_within_its_hour() {
    let generated: i64 = 1_800_000_000;
    for now in [generated, generated + 1, generated + 1800, generated + 3599] {
        let stored = snapshot_at(generated);
        let outcome = lookup_cached(false, Some(stored.clone().into_cached()), now);
        assert_eq!(served(outcome), Some(stored));
    }
}

#[test]
fn cached_snapshot_expires_at_its_deadline() {
    let generated: i64 = 1_800_000_000;
    for now in [generated + 3600, generated + 3601, generated + 86_400] {
        let outcome = lookup_cached(false, Some(snapshot_at(generated).into_cached()), now);
        assert_eq!(served(outcome), None);
        let fresh = snapshot_at(now);
        assert!(fresh.cache_generated_at > generated);
    }
}

#[test]
fn forced_refresh_never_serves_the_cache() {
    let generated: i64 = 1_800_000_000;
    let outcome = lookup_cached(true, Some(snapshot_at(generated).into_cached()), generated);
    assert_eq!(served(outcome), None);
    let outcome = get_dashboard(true, Some(snapshot_at(i64::MAX - 3600).into_cached()));
    assert_eq!(served(outcome), None);
}

#[test]
fn forced_refresh_twice_gives_two_distinct_snapshots() {
    let first = compute_dashboard(today(), None, 1_800_000_000, 3, counts());
    let missed = get_dashboard(true, Some(first.clone().into_cached()));
    assert_eq!(served(missed), None);
    let second = compute_dashboard(today(), None, 1_800_000_000, 3, counts());
    assert_ne!(first.dashboard_id, second.dashboard_id);
    assert!(first.cache_generated_at <= second.cache_generated_at);
    assert!(!first.dashboard_id.is_empty());
}

#[test]
fn nothing_stored_is_a_miss() {
    assert_eq!(served(lookup_cached(false, None, 0)), None);
    assert_eq!(served(get_dashboard(false, None)), None);
}

#[test]
fn snapshot_without_a_deadline_is_a_miss() {
    let stored = CachedSnapshot { snapshot: snapshot_at(1_800_000_000), valid_until: None };
    assert_eq!(served(lookup_cached(false, Some(stored), 1_800_000_000)), None);
}

#[test]
fn get_dashboard_goes_by_the_clock() {
    let long_valid = snapshot_at(i64::MAX - 3600);
    let outcome = get_dashboard(false, Some(long_valid.clone().into_cached()));
    assert_eq!(served(outcome), Some(long_valid));
    let long_expired = snapshot_at(0);
    let outcome = get_dashboard(false, Some(long_expired.into_cached()));
    assert_eq!(served(outcome), None);
}

#[test]
fn into_cached_keeps_the_snapshot_and_its_deadline() {
    let snapshot = snapshot_at(1_800_000_000);
    let cached = snapshot.clone().into_cached();
    assert_eq!(cached.snapshot, snapshot);
    assert_eq!(cached.valid_until, Some(1_800_003_600));
}
